//! The mathematical model of the IDPF recursion.
//!
//! Seeds are 16-byte sequences, control bits are booleans, and payloads
//! are canonical field values. `gen_state` and `gen_tape` describe what
//! `Idpf::gen` computes; `eval_walk` and `eval_share` describe what
//! `Idpf::eval` computes. The executable functions carry contracts that
//! tie them to these definitions, and the laws in `laws` are proved
//! about these definitions alone.

use vstd::prelude::*;
use crate::field::{f_add, f_neg, f_sub};
use crate::prg::{xof_field, xof_stream};

verus! {

/// The two child (seed, control bit) pairs produced by `extend`.
#[verifier::ext_equal]
pub ghost struct ExtModel {
    pub s0: Seq<u8>,
    pub b0: bool,
    pub s1: Seq<u8>,
    pub b1: bool,
}

/// One correction word: a seed correction, a control-bit pair, and a
/// payload correction (a canonical field value).
#[verifier::ext_equal]
pub ghost struct CwModel {
    pub s: Seq<u8>,
    pub b0: bool,
    pub b1: bool,
    pub w: int,
}

/// The pair of server states that Gen threads through the levels.
#[verifier::ext_equal]
pub ghost struct PairState {
    pub s0: Seq<u8>,
    pub b0: bool,
    pub s1: Seq<u8>,
    pub b1: bool,
}

/// Bytewise XOR of two 16-byte seeds.
pub open spec fn seed_xor(a: Seq<u8>, b: Seq<u8>) -> Seq<u8> {
    Seq::new(16, |i: int| a[i] ^ b[i])
}

/// The all-zero seed.
pub open spec fn zero_seed() -> Seq<u8> {
    Seq::new(16, |i: int| 0u8)
}

/// The child seed carved out of the XOF stream at byte `base`: 16
/// bytes, with the control bit (the LSB of the first byte) cleared.
pub open spec fn child_seed(blk: Seq<u8>, base: int) -> Seq<u8> {
    Seq::new(
        16,
        |i: int|
            if i == 0 {
                blk[base] & 0xFE
            } else {
                blk[base + i]
            },
    )
}

/// The child control bit at byte `base` of the XOF stream: its LSB.
pub open spec fn child_bit(blk: Seq<u8>, base: int) -> bool {
    blk[base] & 1 == 1
}

/// `extend`: the first half of the XOF stream becomes the left child,
/// the second half the right child; each child's control bit is the LSB
/// of its byte 0, which is then cleared in the child seed.
pub open spec fn spec_extend(nonce: Seq<u8>, s: Seq<u8>) -> ExtModel {
    let blk = xof_stream(nonce, s);
    ExtModel {
        s0: child_seed(blk, 0),
        b0: child_bit(blk, 0),
        s1: child_seed(blk, 16),
        b1: child_bit(blk, 16),
    }
}

/// The block handed to the XOF by `convert`: byte 15 is flipped so the
/// input blocks can never collide with those of `extend`.
pub open spec fn convert_tweak(s: Seq<u8>) -> Seq<u8> {
    s.update(15, s[15] ^ 1)
}

/// `convert`: the canonical field value sampled from the XOF stream of
/// the tweaked seed.
pub open spec fn spec_convert(nonce: Seq<u8>, s: Seq<u8>) -> int {
    crate::field::f_from_u64(xof_field(nonce, convert_tweak(s)))
}

/// Correction: XOR the correction word's seed into both child seeds and
/// its control-bit pair into the child control bits.
pub open spec fn ext_correct(e: ExtModel, cw: CwModel) -> ExtModel {
    ExtModel {
        s0: seed_xor(e.s0, cw.s),
        b0: e.b0 ^ cw.b0,
        s1: seed_xor(e.s1, cw.s),
        b1: e.b1 ^ cw.b1,
    }
}

/// Selection: keep the child indexed by `bit`.
pub open spec fn ext_select(e: ExtModel, bit: bool) -> (Seq<u8>, bool) {
    if bit {
        (e.s1, e.b1)
    } else {
        (e.s0, e.b0)
    }
}

/// One per-level step of a server's state machine: extend, correct if
/// the control bit is set, then select.
pub open spec fn eval_step(
    nonce: Seq<u8>,
    s: Seq<u8>,
    b: bool,
    cw: CwModel,
    bit: bool,
) -> (Seq<u8>, bool) {
    let e = spec_extend(nonce, s);
    let e2 = if b { ext_correct(e, cw) } else { e };
    ext_select(e2, bit)
}

/// The (seed, control bit) state of server `id` after walking the
/// prefix `p` along the tape `cws`, starting from root seed `k`.
pub open spec fn eval_walk(
    nonce: Seq<u8>,
    k: Seq<u8>,
    id: bool,
    cws: Seq<CwModel>,
    p: Seq<bool>,
) -> (Seq<u8>, bool)
    decreases p.len(),
{
    if p.len() == 0 {
        (k, id)
    } else {
        let prev = eval_walk(nonce, k, id, cws, p.drop_last());
        eval_step(nonce, prev.0, prev.1, cws[p.len() - 1], p.last())
    }
}

/// The payload-share table: server 0 adds, server 1 negates, and a set
/// control bit mixes in the level's payload correction.
pub open spec fn share_of(id: bool, b: bool, cw_w: int, conv: int) -> int {
    if !id && !b {
        conv
    } else if !id && b {
        f_add(cw_w, conv)
    } else if id && !b {
        f_neg(conv)
    } else {
        f_neg(f_add(cw_w, conv))
    }
}

/// The field share server `id` outputs at the nonempty prefix `p`.
pub open spec fn eval_share(
    nonce: Seq<u8>,
    k: Seq<u8>,
    id: bool,
    cws: Seq<CwModel>,
    p: Seq<bool>,
) -> int {
    let st = eval_walk(nonce, k, id, cws, p);
    share_of(id, st.1, cws[p.len() - 1].w, spec_convert(nonce, st.0))
}

/// The initial pair of server states in Gen.
pub open spec fn gen_init(k0: Seq<u8>, k1: Seq<u8>) -> PairState {
    PairState { s0: k0, b0: false, s1: k1, b1: true }
}

/// The seed and control-bit parts of the correction word that Gen emits
/// from state `st` at a level where alpha's bit is `bit`; the payload
/// part is zero here and is filled in from the next state by `gen_cw`.
/// The seed correction is the XOR of the two lose-branch child seeds,
/// so that correction cancels the lose branch between the servers.
pub open spec fn gen_partial_cw(nonce: Seq<u8>, st: PairState, bit: bool) -> CwModel {
    let e0 = spec_extend(nonce, st.s0);
    let e1 = spec_extend(nonce, st.s1);
    let lose0 = if bit { e0.s0 } else { e0.s1 };
    let lose1 = if bit { e1.s0 } else { e1.s1 };
    CwModel {
        s: seed_xor(lose0, lose1),
        b0: !bit ^ e0.b0 ^ e1.b0,
        b1: bit ^ e0.b1 ^ e1.b1,
        w: 0,
    }
}

/// Both servers' next state: each extends, corrects if it carries a set
/// control bit, and keeps alpha's branch. The payload part of the
/// correction word plays no role here, so the state recursion is
/// independent of beta.
pub open spec fn gen_step_state(nonce: Seq<u8>, st: PairState, bit: bool) -> PairState {
    let cw = gen_partial_cw(nonce, st, bit);
    let n0 = eval_step(nonce, st.s0, st.b0, cw, bit);
    let n1 = eval_step(nonce, st.s1, st.b1, cw, bit);
    PairState { s0: n0.0, b0: n0.1, s1: n1.0, b1: n1.1 }
}

/// The full correction word at a level: the partial word with the
/// payload correction computed from the next pair of states, negated
/// when server 1 ends the level carrying a set control bit.
pub open spec fn gen_cw(nonce: Seq<u8>, st: PairState, bit: bool, beta: int) -> CwModel {
    let partial = gen_partial_cw(nonce, st, bit);
    let next = gen_step_state(nonce, st, bit);
    let w0 = f_add(f_sub(beta, spec_convert(nonce, next.s0)), spec_convert(nonce, next.s1));
    CwModel {
        s: partial.s,
        b0: partial.b0,
        b1: partial.b1,
        w: if next.b1 {
            f_neg(w0)
        } else {
            w0
        },
    }
}

/// The pair of Gen states after consuming all of `alpha`.
pub open spec fn gen_state(nonce: Seq<u8>, k0: Seq<u8>, k1: Seq<u8>, alpha: Seq<bool>) -> PairState
    decreases alpha.len(),
{
    if alpha.len() == 0 {
        gen_init(k0, k1)
    } else {
        gen_step_state(nonce, gen_state(nonce, k0, k1, alpha.drop_last()), alpha.last())
    }
}

/// The tape of correction words Gen emits for `alpha` and `beta`, one
/// per level, in path order.
pub open spec fn gen_tape(
    nonce: Seq<u8>,
    k0: Seq<u8>,
    k1: Seq<u8>,
    alpha: Seq<bool>,
    beta: int,
) -> Seq<CwModel>
    decreases alpha.len(),
{
    if alpha.len() == 0 {
        Seq::empty()
    } else {
        gen_tape(nonce, k0, k1, alpha.drop_last(), beta).push(
            gen_cw(nonce, gen_state(nonce, k0, k1, alpha.drop_last()), alpha.last(), beta),
        )
    }
}

} // verus!
