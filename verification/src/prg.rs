//! The fixed-key pseudo-random generator behind `extend` and `convert`.
//!
//! The generator is prio's XofFixedKeyAes128: AES-128 under a key derived
//! deterministically from a domain string and a public per-session nonce.
//! Its outputs are named by uninterpreted spec functions of the nonce and
//! the seed; everything the library proves about `extend` and `convert`
//! is stated over those names.

use vstd::prelude::*;
use prio::vdaf::xof::IntoFieldVec;
use rand::RngCore;

verus! {

#[verifier::external_type_specification]
#[verifier::external_body]
pub struct ExXofFixedKeyAes128Key(prio::vdaf::xof::XofFixedKeyAes128Key);

/// The 32-byte stream that the fixed-key XOF for `nonce` derives from
/// `seed`. A pure mathematical name: the stream is a deterministic
/// function of the nonce (which fixes the AES key) and the seed.
pub uninterp spec fn xof_stream(nonce: Seq<u8>, seed: Seq<u8>) -> Seq<u8>;

/// The canonical field value that rejection sampling draws from the
/// fixed-key XOF stream of `block`. Deterministic in (nonce, block).
pub uninterp spec fn xof_field(nonce: Seq<u8>, block: Seq<u8>) -> u64;

/// A fixed-key XOF instance: the AES key, together with the public
/// nonce it was derived from. The fields are private and the only
/// constructor is `FixedKeyXof::new`, so in every value the key is the
/// one that prio derives from `nonce`; the contracts of `fill_32` and
/// `field_u64` lean on that binding.
pub struct FixedKeyXof {
    key: prio::vdaf::xof::XofFixedKeyAes128Key,
    nonce: [u8; 16],
}

impl FixedKeyXof {
    /// The public per-session nonce this generator was keyed with.
    pub closed spec fn nonce_view(&self) -> Seq<u8> {
        self.nonce@
    }

    /// Relies on prio's `XofFixedKeyAes128Key::new`, which derives the
    /// AES key deterministically from the domain string and the nonce.
    #[verifier::external_body]
    pub(crate) fn new(nonce: &[u8; 16]) -> (r: Self)
        ensures
            r.nonce_view() == nonce@,
    {
        FixedKeyXof { key: prio::vdaf::xof::XofFixedKeyAes128Key::new(b"coolguy", nonce), nonce: *nonce }
    }

    /// Relies on prio's `XofFixedKeyAes128Key::with_seed` and the
    /// stream's `RngCore::fill_bytes`: the first 32 stream bytes are a
    /// deterministic function of the AES key (hence of the nonce) and
    /// the seed, returned here as two 16-byte halves.
    #[verifier::external_body]
    pub(crate) fn fill_32(&self, seed: &[u8; 16]) -> (r: ([u8; 16], [u8; 16]))
        ensures
            r.0@ + r.1@ == xof_stream(self.nonce_view(), seed@),
    {
        let mut out = [0u8; 32];
        self.key.with_seed(seed).fill_bytes(&mut out);
        let mut left = [0u8; 16];
        let mut right = [0u8; 16];
        left.copy_from_slice(&out[..16]);
        right.copy_from_slice(&out[16..]);
        (left, right)
    }

    /// Relies on prio's `IntoFieldVec::into_field_vec` for `Field64`
    /// (deterministic rejection sampling from the stream of `block`)
    /// and on `From<Field64> for u64`, which returns the canonical
    /// residue, strictly below the modulus.
    #[verifier::external_body]
    pub(crate) fn field_u64(&self, block: &[u8; 16]) -> (r: u64)
        ensures
            r == xof_field(self.nonce_view(), block@),
            r < crate::field::FIELD_MODULUS,
    {
        let v: Vec<prio::field::Field64> = self.key.with_seed(block).into_field_vec(1);
        u64::from(v[0])
    }
}

} // verus!
