//! The correctness laws of the IDPF, proved about the model.
//!
//! The executable `gen` and `eval` carry contracts that equate what they
//! compute with `gen_tape`, `eval_walk` and `eval_share`; the lemmas
//! here state what those definitions guarantee: on a prefix of alpha the
//! two servers' payload shares sum to beta and their control bits
//! differ, off the path the servers end in identical states and their
//! shares cancel.

use vstd::prelude::*;
use crate::field::{f_add, f_neg, f_sub, in_field};
use crate::model::{
    eval_share, eval_step, eval_walk, ext_correct, gen_cw, gen_partial_cw, gen_state,
    gen_step_state, gen_tape, seed_xor, share_of, spec_convert, spec_extend, PairState,
};
use crate::prg::xof_stream;

verus! {

/// A path `p` is a prefix of `alpha`.
pub open spec fn is_prefix_of(p: Seq<bool>, alpha: Seq<bool>) -> bool {
    p.len() <= alpha.len() && p == alpha.take(p.len() as int)
}

/// Law: Gen emits exactly one correction word per level of `alpha`.
pub proof fn lemma_gen_tape_len(
    nonce: Seq<u8>,
    k0: Seq<u8>,
    k1: Seq<u8>,
    alpha: Seq<bool>,
    beta: int,
)
    ensures
        gen_tape(nonce, k0, k1, alpha, beta).len() == alpha.len(),
    decreases alpha.len(),
{
    if alpha.len() > 0 {
        lemma_gen_tape_len(nonce, k0, k1, alpha.drop_last(), beta);
    }
}

/// Law: `extend` clears the control bit it extracts — byte 0 of each
/// child seed has its least significant bit zero.
pub proof fn lemma_extend_clears_control_bit(nonce: Seq<u8>, s: Seq<u8>)
    ensures
        spec_extend(nonce, s).s0.len() == 16,
        spec_extend(nonce, s).s1.len() == 16,
        spec_extend(nonce, s).s0[0] & 0x01 == 0,
        spec_extend(nonce, s).s1[0] & 0x01 == 0,
{
    let blk = xof_stream(nonce, s);
    let x0 = blk[0];
    let x1 = blk[16];
    assert((x0 & 0xFE) & 0x01 == 0) by (bit_vector);
    assert((x1 & 0xFE) & 0x01 == 0) by (bit_vector);
}

/// Where each correction word on the tape comes from: level j's word is
/// built from the Gen state after the first j levels.
pub proof fn lemma_gen_tape_index(
    nonce: Seq<u8>,
    k0: Seq<u8>,
    k1: Seq<u8>,
    alpha: Seq<bool>,
    beta: int,
    j: int,
)
    requires
        0 <= j < alpha.len(),
    ensures
        gen_tape(nonce, k0, k1, alpha, beta)[j] == gen_cw(
            nonce,
            gen_state(nonce, k0, k1, alpha.take(j)),
            alpha[j],
            beta,
        ),
    decreases alpha.len(),
{
    lemma_gen_tape_len(nonce, k0, k1, alpha.drop_last(), beta);
    if j == alpha.len() - 1 {
        assert(alpha.drop_last() =~= alpha.take(j));
    } else {
        lemma_gen_tape_index(nonce, k0, k1, alpha.drop_last(), beta, j);
        assert(alpha.drop_last().take(j) =~= alpha.take(j));
        assert(alpha.drop_last()[j] == alpha[j]);
    }
}

/// On every prefix of alpha, each server's Eval walk reproduces the Gen
/// state for that level, and the two servers' control bits differ.
pub proof fn lemma_on_path_states(
    nonce: Seq<u8>,
    k0: Seq<u8>,
    k1: Seq<u8>,
    alpha: Seq<bool>,
    beta: int,
    l: int,
)
    requires
        0 <= l <= alpha.len(),
    ensures
        ({
            let tape = gen_tape(nonce, k0, k1, alpha, beta);
            let st = gen_state(nonce, k0, k1, alpha.take(l));
            &&& eval_walk(nonce, k0, false, tape, alpha.take(l)) == (st.s0, st.b0)
            &&& eval_walk(nonce, k1, true, tape, alpha.take(l)) == (st.s1, st.b1)
            &&& st.b0 != st.b1
        }),
    decreases l,
{
    let tape = gen_tape(nonce, k0, k1, alpha, beta);
    let p = alpha.take(l);
    if l == 0 {
        assert(p.len() == 0);
    } else {
        lemma_on_path_states(nonce, k0, k1, alpha, beta, l - 1);
        lemma_gen_tape_index(nonce, k0, k1, alpha, beta, l - 1);
        lemma_gen_tape_len(nonce, k0, k1, alpha, beta);
        let stp = gen_state(nonce, k0, k1, alpha.take(l - 1));
        let bit = alpha[l - 1];
        let cw = gen_cw(nonce, stp, bit, beta);
        let pcw = gen_partial_cw(nonce, stp, bit);
        assert(p.drop_last() =~= alpha.take(l - 1));
        assert(p.last() == bit);
        // The full correction word differs from the partial one only in
        // its payload slot, which correction ignores.
        assert(ext_correct(spec_extend(nonce, stp.s0), cw) == ext_correct(
            spec_extend(nonce, stp.s0),
            pcw,
        ));
        assert(ext_correct(spec_extend(nonce, stp.s1), cw) == ext_correct(
            spec_extend(nonce, stp.s1),
            pcw,
        ));
        assert(eval_walk(nonce, k0, false, tape, p) == eval_step(nonce, stp.s0, stp.b0, cw, bit));
        assert(eval_walk(nonce, k1, true, tape, p) == eval_step(nonce, stp.s1, stp.b1, cw, bit));
        assert(gen_state(nonce, k0, k1, p) == gen_step_state(nonce, stp, bit));
    }
}

/// XOR of seeds is commutative.
proof fn lemma_seed_xor_comm(a: Seq<u8>, b: Seq<u8>)
    ensures
        seed_xor(a, b) == seed_xor(b, a),
{
    assert forall|i: int| 0 <= i < 16 implies seed_xor(a, b)[i] == seed_xor(b, a)[i] by {
        let x = a[i];
        let y = b[i];
        assert(x ^ y == y ^ x) by (bit_vector);
    };
    assert(seed_xor(a, b) =~= seed_xor(b, a));
}

/// XOR cancellation on seeds: a ^ (a ^ b) == b.
proof fn lemma_seed_xor_cancel(a: Seq<u8>, b: Seq<u8>)
    requires
        b.len() == 16,
    ensures
        seed_xor(a, seed_xor(a, b)) == b,
{
    assert forall|i: int| 0 <= i < 16 implies seed_xor(a, seed_xor(a, b))[i] == b[i] by {
        let x = a[i];
        let y = b[i];
        assert(x ^ (x ^ y) == y) by (bit_vector);
    };
    assert(seed_xor(a, seed_xor(a, b)) =~= b);
}

/// The step that leaves alpha's path: from an on-path pair of states
/// (control bits differing), correcting the carrying server and
/// selecting the lose branch makes the two servers' states identical.
proof fn lemma_divergence_step(nonce: Seq<u8>, stp: PairState, abit: bool, beta: int)
    requires
        stp.b0 != stp.b1,
    ensures
        ({
            let cw = gen_cw(nonce, stp, abit, beta);
            eval_step(nonce, stp.s0, stp.b0, cw, !abit) == eval_step(
                nonce,
                stp.s1,
                stp.b1,
                cw,
                !abit,
            )
        }),
{
    let cw = gen_cw(nonce, stp, abit, beta);
    let e0 = spec_extend(nonce, stp.s0);
    let e1 = spec_extend(nonce, stp.s1);
    let lose0 = if abit {
        e0.s0
    } else {
        e0.s1
    };
    let lose1 = if abit {
        e1.s0
    } else {
        e1.s1
    };
    assert(cw.s == seed_xor(lose0, lose1));
    lemma_seed_xor_cancel(lose0, lose1);
    lemma_seed_xor_comm(lose0, lose1);
    lemma_seed_xor_cancel(lose1, lose0);
}

/// Off alpha's path the two servers' Eval walks coincide exactly.
proof fn lemma_off_path_states(
    nonce: Seq<u8>,
    k0: Seq<u8>,
    k1: Seq<u8>,
    alpha: Seq<bool>,
    beta: int,
    p: Seq<bool>,
)
    requires
        1 <= p.len() <= alpha.len(),
        p != alpha.take(p.len() as int),
    ensures
        eval_walk(nonce, k0, false, gen_tape(nonce, k0, k1, alpha, beta), p) == eval_walk(
            nonce,
            k1,
            true,
            gen_tape(nonce, k0, k1, alpha, beta),
            p,
        ),
    decreases p.len(),
{
    let tape = gen_tape(nonce, k0, k1, alpha, beta);
    let l = p.len() as int;
    lemma_gen_tape_len(nonce, k0, k1, alpha, beta);
    lemma_gen_tape_index(nonce, k0, k1, alpha, beta, l - 1);
    if p.drop_last() == alpha.take(l - 1) {
        // The walk is on-path up to the last level and leaves there.
        lemma_on_path_states(nonce, k0, k1, alpha, beta, l - 1);
        let stp = gen_state(nonce, k0, k1, alpha.take(l - 1));
        let abit = alpha[l - 1];
        assert(p.last() != abit) by {
            if p.last() == abit {
                assert(p =~= alpha.take(l));
            }
        }
        lemma_divergence_step(nonce, stp, abit, beta);
        assert(eval_walk(nonce, k0, false, tape, p) == eval_step(
            nonce,
            stp.s0,
            stp.b0,
            tape[l - 1],
            p.last(),
        ));
        assert(eval_walk(nonce, k1, true, tape, p) == eval_step(
            nonce,
            stp.s1,
            stp.b1,
            tape[l - 1],
            p.last(),
        ));
    } else {
        // Already off-path below; identical states take identical steps.
        assert(p.drop_last().len() >= 1) by {
            if p.drop_last().len() == 0 {
                assert(p.drop_last() =~= alpha.take(l - 1));
            }
        }
        lemma_off_path_states(nonce, k0, k1, alpha, beta, p.drop_last());
    }
}

/// The payload algebra on alpha's path: with differing control bits and
/// the payload correction that Gen computes, the two shares sum to beta.
proof fn lemma_on_path_share_sum(beta: int, c0: int, c1: int, b0: bool, b1: bool, cw_w: int)
    requires
        in_field(beta),
        in_field(c0),
        in_field(c1),
        b0 != b1,
        cw_w == (if b1 {
            f_neg(f_add(f_sub(beta, c0), c1))
        } else {
            f_add(f_sub(beta, c0), c1)
        }),
    ensures
        f_add(share_of(false, b0, cw_w, c0), share_of(true, b1, cw_w, c1)) == beta,
{
}

/// The payload algebra off alpha's path: with identical states the two
/// shares are exact negatives of each other.
proof fn lemma_off_path_share_sum(b: bool, cw_w: int, c: int)
    requires
        in_field(cw_w),
        in_field(c),
    ensures
        f_add(share_of(false, b, cw_w, c), share_of(true, b, cw_w, c)) == 0,
{
}

/// Law (on-path): if p is a nonempty prefix of alpha, each server's
/// Eval walk reproduces Gen's state at p's tip, the two control bits
/// differ, and the two payload shares sum to beta.
pub proof fn lemma_on_path(
    nonce: Seq<u8>,
    k0: Seq<u8>,
    k1: Seq<u8>,
    alpha: Seq<bool>,
    beta: int,
    p: Seq<bool>,
)
    requires
        in_field(beta),
        1 <= p.len(),
        is_prefix_of(p, alpha),
    ensures
        ({
            let tape = gen_tape(nonce, k0, k1, alpha, beta);
            let st = gen_state(nonce, k0, k1, p);
            &&& eval_walk(nonce, k0, false, tape, p) == (st.s0, st.b0)
            &&& eval_walk(nonce, k1, true, tape, p) == (st.s1, st.b1)
            &&& st.b0 != st.b1
            &&& f_add(
                eval_share(nonce, k0, false, tape, p),
                eval_share(nonce, k1, true, tape, p),
            ) == beta
        }),
{
    let tape = gen_tape(nonce, k0, k1, alpha, beta);
    let l = p.len() as int;
    assert(p == alpha.take(l));
    lemma_on_path_states(nonce, k0, k1, alpha, beta, l);
    lemma_gen_tape_len(nonce, k0, k1, alpha, beta);
    lemma_gen_tape_index(nonce, k0, k1, alpha, beta, l - 1);
    let stp = gen_state(nonce, k0, k1, alpha.take(l - 1));
    let st = gen_state(nonce, k0, k1, alpha.take(l));
    assert(alpha.take(l).drop_last() =~= alpha.take(l - 1));
    assert(alpha.take(l).last() == alpha[l - 1]);
    assert(st == gen_step_state(nonce, stp, alpha[l - 1]));
    lemma_on_path_share_sum(
        beta,
        spec_convert(nonce, st.s0),
        spec_convert(nonce, st.s1),
        st.b0,
        st.b1,
        tape[l - 1].w,
    );
}

/// Law (off-path): if p diverges from alpha at any level up to its
/// length, the two servers end in identical states — the same seed and
/// the same control bit — and their payload shares sum to zero.
pub proof fn lemma_off_path(
    nonce: Seq<u8>,
    k0: Seq<u8>,
    k1: Seq<u8>,
    alpha: Seq<bool>,
    beta: int,
    p: Seq<bool>,
)
    requires
        in_field(beta),
        1 <= p.len() <= alpha.len(),
        !is_prefix_of(p, alpha),
    ensures
        ({
            let tape = gen_tape(nonce, k0, k1, alpha, beta);
            &&& eval_walk(nonce, k0, false, tape, p) == eval_walk(nonce, k1, true, tape, p)
            &&& f_add(
                eval_share(nonce, k0, false, tape, p),
                eval_share(nonce, k1, true, tape, p),
            ) == 0
        }),
{
    let tape = gen_tape(nonce, k0, k1, alpha, beta);
    let l = p.len() as int;
    lemma_off_path_states(nonce, k0, k1, alpha, beta, p);
    lemma_gen_tape_len(nonce, k0, k1, alpha, beta);
    lemma_gen_tape_index(nonce, k0, k1, alpha, beta, l - 1);
    let walk = eval_walk(nonce, k0, false, tape, p);
    lemma_off_path_share_sum(walk.1, tape[l - 1].w, spec_convert(nonce, walk.0));
}

/// Law (partial path): if p agrees with alpha strictly below level j and
/// diverges at level j, then every nonempty prefix of p of length at
/// most j behaves on-path (shares sum to beta, control bits differ) and
/// every longer prefix behaves off-path (identical states, shares sum
/// to zero).
pub proof fn lemma_partial_path(
    nonce: Seq<u8>,
    k0: Seq<u8>,
    k1: Seq<u8>,
    alpha: Seq<bool>,
    beta: int,
    p: Seq<bool>,
    j: int,
    l: int,
)
    requires
        in_field(beta),
        p.len() == alpha.len(),
        0 <= j < p.len(),
        p.take(j) == alpha.take(j),
        p[j] != alpha[j],
        1 <= l <= p.len(),
    ensures
        ({
            let tape = gen_tape(nonce, k0, k1, alpha, beta);
            let q = p.take(l);
            let w0 = eval_share(nonce, k0, false, tape, q);
            let w1 = eval_share(nonce, k1, true, tape, q);
            &&& l <= j ==> {
                let st = gen_state(nonce, k0, k1, q);
                &&& eval_walk(nonce, k0, false, tape, q) == (st.s0, st.b0)
                &&& eval_walk(nonce, k1, true, tape, q) == (st.s1, st.b1)
                &&& st.b0 != st.b1
                &&& f_add(w0, w1) == beta
            }
            &&& l > j ==> {
                &&& eval_walk(nonce, k0, false, tape, q) == eval_walk(nonce, k1, true, tape, q)
                &&& f_add(w0, w1) == 0
            }
        }),
{
    let q = p.take(l);
    if l <= j {
        assert forall|i: int| 0 <= i < l implies q[i] == alpha.take(l)[i] by {
            assert(p.take(j)[i] == alpha.take(j)[i]);
            assert(p.take(j)[i] == p[i]);
            assert(alpha.take(j)[i] == alpha[i]);
        }
        assert(q =~= alpha.take(l));
        assert(is_prefix_of(q, alpha));
        lemma_on_path(nonce, k0, k1, alpha, beta, q);
    } else {
        assert(q[j] == p[j]);
        assert(q != alpha.take(l)) by {
            assert(alpha.take(l)[j] == alpha[j]);
        }
        assert(!is_prefix_of(q, alpha));
        lemma_off_path(nonce, k0, k1, alpha, beta, q);
    }
}

} // verus!
