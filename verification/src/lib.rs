//! Verification of an elliptic-curve VRF proof over secp256k1, with the
//! fixed-width byte encoding that carries a proof between a host and a
//! provable execution environment.

pub mod bignum;
pub mod boundary;
pub mod curve;
pub mod error;
pub mod helper;
pub mod record;
pub mod verification;

pub use crate::curve::Point;
pub use crate::error::VrfError;
pub use crate::record::R0ECVRF;
pub use crate::verification::verify;
