//! The prime field used for IDPF payloads: arithmetic modulo
//! 2^64 - 2^32 + 1, with addition, subtraction and negation.

use vstd::prelude::*;

verus! {

/// The prime modulus 2^64 - 2^32 + 1.
pub const FIELD_MODULUS: u64 = 18446744069414584321;

/// Whether `a` is a canonical field value.
pub open spec fn in_field(a: int) -> bool {
    0 <= a < FIELD_MODULUS
}

/// Field addition of canonical values: `(a + b) mod FIELD_MODULUS`,
/// written with a conditional subtraction.
pub open spec fn f_add(a: int, b: int) -> int {
    if a + b < FIELD_MODULUS {
        a + b
    } else {
        a + b - FIELD_MODULUS
    }
}

/// Field negation of a canonical value: `(-a) mod FIELD_MODULUS`.
pub open spec fn f_neg(a: int) -> int {
    if a == 0 {
        0
    } else {
        FIELD_MODULUS - a
    }
}

/// Field subtraction of canonical values: `(a - b) mod FIELD_MODULUS`.
pub open spec fn f_sub(a: int, b: int) -> int {
    f_add(a, f_neg(b))
}

/// An element of the prime field, kept in canonical form.
#[derive(Clone, Copy, Debug, PartialEq, Eq)]
pub struct Field64 {
    value: u64,
}

impl View for Field64 {
    type V = int;

    closed spec fn view(&self) -> int {
        self.value as int
    }
}

impl Field64 {
    #[verifier::type_invariant]
    spec fn canonical(self) -> bool {
        self.value < FIELD_MODULUS
    }

    /// The additive identity.
    pub fn zero() -> (r: Self)
        ensures
            r@ == 0,
            in_field(r@),
    {
        Field64 { value: 0 }
    }

    /// Wrap a machine word already known to be canonical.
    pub(crate) fn from_canonical(v: u64) -> (r: Self)
        requires
            v < FIELD_MODULUS,
        ensures
            r@ == v,
            in_field(r@),
    {
        Field64 { value: v }
    }

    /// Field addition.
    pub fn add(self, rhs: Self) -> (r: Self)
        ensures
            r@ == f_add(self@, rhs@),
            in_field(r@),
    {
        proof {
            use_type_invariant(self);
            use_type_invariant(rhs);
        }
        let wide: u128 = self.value as u128 + rhs.value as u128;
        if wide < FIELD_MODULUS as u128 {
            Field64 { value: wide as u64 }
        } else {
            Field64 { value: (wide - FIELD_MODULUS as u128) as u64 }
        }
    }

    /// Field negation.
    pub fn neg(self) -> (r: Self)
        ensures
            r@ == f_neg(self@),
            in_field(r@),
    {
        proof {
            use_type_invariant(self);
        }
        if self.value == 0 {
            Field64 { value: 0 }
        } else {
            Field64 { value: FIELD_MODULUS - self.value }
        }
    }

    /// Field subtraction.
    pub fn sub(self, rhs: Self) -> (r: Self)
        ensures
            r@ == f_sub(self@, rhs@),
            in_field(r@),
    {
        self.add(rhs.neg())
    }
}

/// The canonical value that an arbitrary machine word reduces to. A
/// `u64` is always below twice the modulus, so one conditional
/// subtraction is enough.
pub open spec fn f_from_u64(x: u64) -> int {
    if x < FIELD_MODULUS {
        x as int
    } else {
        x - FIELD_MODULUS
    }
}

/// The canonical field value that the machine word `x` reduces to.
pub closed spec fn reduced(x: u64) -> Field64 {
    Field64 { value: if x >= FIELD_MODULUS { (x - FIELD_MODULUS) as u64 } else { x } }
}

/// What `reduced` means, without reference to the representation.
pub proof fn lemma_reduced(x: u64)
    ensures
        reduced(x)@ == f_from_u64(x),
        in_field(reduced(x)@),
{
}

/// Reduction of an arbitrary machine word into the field.
impl From<u64> for Field64 {
    fn from(x: u64) -> (r: Self) {
        if x >= FIELD_MODULUS {
            Field64 { value: x - FIELD_MODULUS }
        } else {
            Field64 { value: x }
        }
    }
}

impl vstd::std_specs::convert::FromSpecImpl<u64> for Field64 {
    open spec fn obeys_from_spec() -> bool {
        true
    }

    open spec fn from_spec(x: u64) -> Field64 {
        reduced(x)
    }
}

} // verus!
