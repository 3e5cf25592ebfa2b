//! The IDPF itself: key generation and per-level evaluation.

use vstd::prelude::*;
use crate::field::Field64;
use crate::model::{eval_share, eval_walk, gen_cw, gen_partial_cw, gen_state, gen_step_state, gen_tape, PairState};
use crate::prg::FixedKeyXof;
use crate::rng::sample_seed_bytes;
use crate::seed::{tape_model, CorrectionWord, Seed};

verus! {

/// The two error kinds of the library; both are programmer errors
/// rather than operational failures.
#[derive(Clone, Copy, Debug, PartialEq, Eq)]
pub enum IdpfError {
    /// `eval` was called with an empty prefix or a prefix longer than
    /// the tape, or `gen` with an empty path.
    Domain,
    /// The ambient random source failed to produce a root seed.
    Randomness,
}

/// An incremental distributed point function, keyed by a public
/// per-session nonce.
pub struct Idpf {
    pub fixed_key: FixedKeyXof,
}

impl Idpf {
    /// Build an IDPF instance whose PRG is keyed by `nonce`.
    pub fn new(nonce: &[u8; 16]) -> (r: Self)
        ensures
            r.fixed_key.nonce_view() == nonce@,
    {
        Idpf { fixed_key: FixedKeyXof::new(nonce) }
    }

    /// The deterministic core of Gen: walk `alpha` bit by bit from the
    /// two root seeds, emitting one correction word per level.
    pub fn gen_with_keys(
        &self,
        alpha: &[bool],
        beta: Field64,
        k0: &Seed,
        k1: &Seed,
    ) -> (cws: Vec<CorrectionWord>)
        ensures
            cws@.len() == alpha@.len(),
            tape_model(cws@) == gen_tape(self.fixed_key.nonce_view(), k0@, k1@, alpha@, beta@),
    {
        let ghost nonce = self.fixed_key.nonce_view();
        let mut s0 = *k0;
        let mut s1 = *k1;
        let mut b0 = false;
        let mut b1 = true;
        let mut cws: Vec<CorrectionWord> = Vec::new();
        let mut i: usize = 0;
        proof {
            assert(alpha@.take(0) =~= Seq::<bool>::empty());
        }
        while i < alpha.len()
            invariant
                i <= alpha@.len(),
                cws@.len() == i,
                nonce == self.fixed_key.nonce_view(),
                tape_model(cws@) == gen_tape(nonce, k0@, k1@, alpha@.take(i as int), beta@),
                gen_state(nonce, k0@, k1@, alpha@.take(i as int)) == (PairState {
                    s0: s0@,
                    b0: b0,
                    s1: s1@,
                    b1: b1,
                }),
            decreases alpha@.len() - i,
        {
            let ghost st = gen_state(nonce, k0@, k1@, alpha@.take(i as int));
            let ghost cws_pre = cws@;
            let bit = alpha[i];
            let mut e0 = s0.extend(&self.fixed_key);
            let mut e1 = s1.extend(&self.fixed_key);
            let lose: usize = if bit {
                0
            } else {
                1
            };
            let mut cw = CorrectionWord {
                s: e0.s[lose].bitxor(e1.s[lose]),
                b: [!bit ^ e0.b[0] ^ e1.b[0], bit ^ e0.b[1] ^ e1.b[1]],
                w: Field64::zero(),
            };
            proof {
                assert(cw.model() =~= gen_partial_cw(nonce, st, bit));
            }
            // Correct and select the next seed and control bit on both
            // sides; the payload slot of `cw` is still zero here, just
            // as in the model.
            //
            // Branching on the secret control bits leaks them through
            // timing. A constant-time upgrade would always XOR, against
            // an all-zero correction word when the bit is clear.
            if b0 {
                e0.correct_with(&cw);
            }
            if b1 {
                e1.correct_with(&cw);
            }
            let sel0 = e0.into_selected(bit);
            let sel1 = e1.into_selected(bit);
            s0 = sel0.0;
            b0 = sel0.1;
            s1 = sel1.0;
            b1 = sel1.1;
            proof {
                assert(gen_step_state(nonce, st, bit) == (PairState {
                    s0: s0@,
                    b0: b0,
                    s1: s1@,
                    b1: b1,
                }));
            }
            // Fill in the payload correction from the next states.
            let conv0 = s0.convert(&self.fixed_key);
            let conv1 = s1.convert(&self.fixed_key);
            let w0 = beta.sub(conv0).add(conv1);
            cw.w = if b1 {
                w0.neg()
            } else {
                w0
            };
            proof {
                assert(cw.model() =~= gen_cw(nonce, st, bit, beta@));
            }
            cws.push(cw);
            proof {
                assert(alpha@.take(i as int + 1).drop_last() =~= alpha@.take(i as int));
                assert(alpha@.take(i as int + 1).last() == alpha@[i as int]);
                assert(tape_model(cws@) =~= tape_model(cws_pre).push(cw.model()));
            }
            i = i + 1;
        }
        proof {
            assert(alpha@.take(alpha@.len() as int) =~= alpha@);
        }
        cws
    }

    /// Gen: sample the two root seeds and emit the correction-word
    /// tape. Fails with `Domain` on an empty path and with
    /// `Randomness` when the operating system's random source fails.
    pub fn gen(&self, alpha: &[bool], beta: Field64) -> (r: Result<
        (Vec<CorrectionWord>, [Seed; 2]),
        IdpfError,
    >)
        ensures
            alpha@.len() == 0 <==> r matches Err(IdpfError::Domain),
            r matches Err(e) ==> (e == IdpfError::Domain || e == IdpfError::Randomness),
            r matches Ok(out) ==> {
                &&& out.0@.len() == alpha@.len()
                &&& tape_model(out.0@) == gen_tape(
                    self.fixed_key.nonce_view(),
                    out.1[0]@,
                    out.1[1]@,
                    alpha@,
                    beta@,
                )
            },
    {
        if alpha.len() == 0 {
            return Err(IdpfError::Domain);
        }
        let k0 = match sample_seed_bytes() {
            Ok(b) => Seed::from_bytes(b),
            Err(_) => {
                return Err(IdpfError::Randomness);
            },
        };
        let k1 = match sample_seed_bytes() {
            Ok(b) => Seed::from_bytes(b),
            Err(_) => {
                return Err(IdpfError::Randomness);
            },
        };
        let cws = self.gen_with_keys(alpha, beta, &k0, &k1);
        Ok((cws, [k0, k1]))
    }

    /// Eval: walk the tape along `prefix` from the root seed `k` of
    /// server `id`, returning the per-level seed at the prefix's tip
    /// and this server's additive share of the payload there.
    pub fn eval(
        &self,
        correction_words: &[CorrectionWord],
        k: &Seed,
        id: bool,
        prefix: &[bool],
    ) -> (r: Result<(Seed, Field64), IdpfError>)
        ensures
            (prefix@.len() == 0 || prefix@.len() > correction_words@.len()) <==> r matches Err(
                IdpfError::Domain,
            ),
            r matches Err(e) ==> e == IdpfError::Domain,
            r matches Ok(out) ==> {
                let nonce = self.fixed_key.nonce_view();
                let cws = tape_model(correction_words@);
                &&& out.0@ == eval_walk(nonce, k@, id, cws, prefix@).0
                &&& out.1@ == eval_share(nonce, k@, id, cws, prefix@)
            },
    {
        if prefix.len() == 0 || prefix.len() > correction_words.len() {
            return Err(IdpfError::Domain);
        }
        let ghost nonce = self.fixed_key.nonce_view();
        let ghost cwsm = tape_model(correction_words@);
        let mut s = *k;
        let mut b = id;
        let mut i: usize = 0;
        proof {
            assert(prefix@.take(0) =~= Seq::<bool>::empty());
        }
        while i < prefix.len()
            invariant
                i <= prefix@.len(),
                prefix@.len() <= correction_words@.len(),
                nonce == self.fixed_key.nonce_view(),
                cwsm == tape_model(correction_words@),
                (s@, b) == eval_walk(nonce, k@, id, cwsm, prefix@.take(i as int)),
            decreases prefix@.len() - i,
        {
            let bit = prefix[i];
            let mut e = s.extend(&self.fixed_key);
            // Branching on the secret control bit leaks it through
            // timing. A constant-time upgrade would always XOR, against
            // an all-zero correction word when the bit is clear.
            if b {
                e.correct_with(&correction_words[i]);
            }
            let sel = e.into_selected(bit);
            s = sel.0;
            b = sel.1;
            proof {
                assert(prefix@.take(i as int + 1).drop_last() =~= prefix@.take(i as int));
                assert(prefix@.take(i as int + 1).last() == prefix@[i as int]);
                assert(cwsm[i as int] == correction_words@[i as int].model());
            }
            i = i + 1;
        }
        // Conversion at the prefix's tip, per the payload-share table.
        let cw_w = correction_words[prefix.len() - 1].w;
        let conv = s.convert(&self.fixed_key);
        let w = if !id && !b {
            conv
        } else if !id && b {
            cw_w.add(conv)
        } else if id && !b {
            conv.neg()
        } else {
            cw_w.add(conv).neg()
        };
        proof {
            assert(prefix@.take(prefix@.len() as int) =~= prefix@);
            assert(cwsm[prefix@.len() - 1] == correction_words@[prefix@.len() - 1].model());
        }
        Ok((s, w))
    }
}

} // verus!
