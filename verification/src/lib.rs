//! A two-party incremental distributed point function (IDPF).
//!
//! `Idpf::gen` secret-shares a point function over a binary prefix tree:
//! for a secret path `alpha` and payload `beta` it produces a public tape
//! of correction words and two private root seeds. Each server evaluates
//! `Idpf::eval` on its own seed at any prefix; the two servers' field
//! shares sum to `beta` on prefixes of `alpha` and to zero elsewhere.

pub mod field;
pub mod idpf;
pub mod laws;
pub mod model;
pub mod prg;
pub mod rng;
pub mod seed;

pub use field::Field64;
pub use idpf::{Idpf, IdpfError};
pub use prg::FixedKeyXof;
pub use seed::{CorrectionWord, ExtendedSeed, Seed};
