//! Signal Protocol core: X3DH key agreement, the Double Ratchet and the
//! primitives they are built from, with their behaviour stated as contracts.
pub mod crypto;
pub mod encoding;
pub mod error;
pub mod keys;
pub mod labels;
pub mod primitives;
pub mod types;
pub mod x3dh;
pub mod skipped_keys;
pub mod double_ratchet;
pub mod session_laws;
pub mod derivation_laws;
pub mod gallery;
