//! Seeds, extended seeds, and correction words.

use vstd::prelude::*;
use crate::field::Field64;
use crate::model::{
    child_seed, convert_tweak, ext_correct, ext_select, seed_xor, spec_convert, spec_extend,
    zero_seed, CwModel, ExtModel,
};
use crate::prg::FixedKeyXof;

verus! {

/// A 16-byte pseudo-random seed. The least significant bit of byte 0
/// carries a control bit in some contexts; `extend` clears it in the
/// child seeds it hands out.
#[derive(Clone, Copy, Debug, PartialEq, Eq)]
pub struct Seed(pub(crate) [u8; 16]);

impl View for Seed {
    type V = Seq<u8>;

    closed spec fn view(&self) -> Seq<u8> {
        self.0@
    }
}

impl Seed {
    /// The all-zero seed, the identity of XOR.
    pub fn zero() -> (r: Seed)
        ensures
            r@ == zero_seed(),
    {
        let r = Seed([0; 16]);
        proof {
            assert(r@ =~= zero_seed());
        }
        r
    }

    /// A seed with the given bytes.
    pub fn from_bytes(bytes: [u8; 16]) -> (r: Seed)
        ensures
            r@ == bytes@,
    {
        Seed(bytes)
    }

    /// The seed's bytes.
    pub fn to_bytes(&self) -> (r: [u8; 16])
        ensures
            r@ == self@,
    {
        self.0
    }

    /// Bytewise XOR.
    pub fn bitxor(self, rhs: Seed) -> (r: Seed)
        ensures
            r@ == seed_xor(self@, rhs@),
    {
        let mut out = [0u8; 16];
        let mut i: usize = 0;
        while i < 16
            invariant
                i <= 16,
                forall|j: int| 0 <= j < i ==> out@[j] == (self@[j] ^ rhs@[j]),
            decreases 16 - i,
        {
            out[i] = self.0[i] ^ rhs.0[i];
            i = i + 1;
        }
        proof {
            assert(out@ =~= seed_xor(self@, rhs@));
        }
        Seed(out)
    }

    /// Bytewise XOR in place.
    pub fn bitxor_assign(&mut self, rhs: Seed)
        ensures
            final(self)@ == seed_xor(old(self)@, rhs@),
    {
        let r = self.bitxor(rhs);
        *self = r;
    }

    /// `extend`: derive the two child (seed, control bit) pairs from
    /// the XOF stream of this seed. Each child's control bit is the
    /// least significant bit of its byte 0, which comes back cleared in
    /// the child seed.
    pub fn extend(&self, fixed_key: &FixedKeyXof) -> (r: ExtendedSeed)
        ensures
            r.model() == spec_extend(fixed_key.nonce_view(), self@),
    {
        let (mut left, mut right) = fixed_key.fill_32(&self.0);
        let ghost l = left@;
        let ghost rr = right@;
        let b0 = left[0] & 0x01 == 1;
        let b1 = right[0] & 0x01 == 1;
        left[0] = left[0] & 0xFE;
        right[0] = right[0] & 0xFE;
        proof {
            let blk = crate::prg::xof_stream(fixed_key.nonce_view(), self@);
            assert(l + rr == blk);
            assert(forall|i: int| 0 <= i < 16 ==> blk[i] == l[i]);
            assert(forall|i: int| 0 <= i < 16 ==> blk[16 + i] == rr[i]);
            assert(left@ =~= child_seed(blk, 0));
            assert(right@ =~= child_seed(blk, 16));
        }
        ExtendedSeed { s: [Seed(left), Seed(right)], b: [b0, b1] }
    }

    /// `convert`: map this seed to a canonical field value. Byte 15 is
    /// flipped before the XOF call so that the input blocks can never
    /// collide with those of `extend`.
    pub fn convert(&self, fixed_key: &FixedKeyXof) -> (r: Field64)
        ensures
            r@ == spec_convert(fixed_key.nonce_view(), self@),
    {
        let mut block = self.0;
        block[15] = block[15] ^ 0x01;
        proof {
            assert(block@ =~= convert_tweak(self@));
        }
        let v = fixed_key.field_u64(&block);
        Field64::from_canonical(v)
    }
}

/// The two child (seed, control bit) pairs produced by `Seed::extend`.
#[derive(Clone, Copy, Debug, PartialEq, Eq)]
pub struct ExtendedSeed {
    pub(crate) s: [Seed; 2],
    pub(crate) b: [bool; 2],
}

impl ExtendedSeed {
    /// The mathematical value of this extended seed.
    pub open(crate) spec fn model(self) -> ExtModel {
        ExtModel { s0: self.s[0]@, b0: self.b[0], s1: self.s[1]@, b1: self.b[1] }
    }

    /// XOR the correction word's seed into both child seeds and its
    /// control-bit pair into the child control bits.
    pub fn correct_with(&mut self, cw: &CorrectionWord)
        ensures
            final(self).model() == ext_correct(old(self).model(), cw.model()),
    {
        self.s[0] = self.s[0].bitxor(cw.s);
        self.b[0] = self.b[0] ^ cw.b[0];
        self.s[1] = self.s[1].bitxor(cw.s);
        self.b[1] = self.b[1] ^ cw.b[1];
    }

    /// Keep the child selected by `bit`, dropping the other.
    pub fn into_selected(self, bit: bool) -> (r: (Seed, bool))
        ensures
            (r.0@, r.1) == ext_select(self.model(), bit),
    {
        if bit {
            (self.s[1], self.b[1])
        } else {
            (self.s[0], self.b[0])
        }
    }
}

/// One level's correction word: a seed correction, a pair of
/// control-bit corrections, and a payload correction. Produced by Gen,
/// broadcast to both servers, never modified thereafter.
#[derive(Clone, Copy, Debug, PartialEq, Eq)]
pub struct CorrectionWord {
    pub(crate) s: Seed,
    pub(crate) b: [bool; 2],
    pub(crate) w: Field64,
}

impl CorrectionWord {
    /// The mathematical value of this correction word.
    pub open(crate) spec fn model(self) -> CwModel {
        CwModel { s: self.s@, b0: self.b[0], b1: self.b[1], w: self.w@ }
    }

    /// The seed correction.
    pub fn seed(&self) -> (r: Seed)
        ensures
            r@ == self.model().s,
    {
        self.s
    }

    /// The pair of control-bit corrections.
    pub fn bits(&self) -> (r: [bool; 2])
        ensures
            r[0] == self.model().b0,
            r[1] == self.model().b1,
    {
        self.b
    }
}

/// The mathematical value of a whole correction-word tape.
pub open spec fn tape_model(cws: Seq<CorrectionWord>) -> Seq<CwModel> {
    Seq::new(cws.len(), |i: int| cws[i].model())
}

} // verus!
