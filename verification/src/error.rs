//! The ways in which an input fails to be a proof that can be checked.

use vstd::prelude::*;

verus! {

/// A malformed input or an untrusted outcome. A proof that is well formed
/// but does not hold is no error: the verifier answers `false`.
#[derive(Clone, Copy, Debug, PartialEq, Eq, Structural)]
pub enum VrfError {
    /// The buffer is shorter than an encoded proof.
    TruncatedInput,
    /// A point field does not decode to a point.
    InvalidPointEncoding,
    /// A point of the proof is not a point of the curve.
    PointNotOnCurve,
    /// The receipt of a provable execution failed its own check, so what the
    /// execution committed is not known.
    ReceiptInvalid,
}

} // verus!
