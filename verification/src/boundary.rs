//! The two ends of the exchange with a provable execution environment: what
//! the environment computes from the bytes it is handed, and what a host may
//! conclude from the receipt and the journal that come back.

use crate::error::VrfError;
use crate::record::{decoded, encoded, lemma_round_trip, ProofView, R0ECVRF};
use crate::verification::{verdict, verify};
use vstd::prelude::*;

verus! {

/// What the provable environment commits for an input buffer: the decoding
/// error where the buffer is no encoded proof, else the verifier's answer.
pub open spec fn attested(input: Seq<u8>) -> Result<bool, VrfError> {
    match decoded(input) {
        Ok(p) => verdict(p),
        Err(e) => Err(e),
    }
}

/// What a host may conclude: nothing where the receipt failed its check,
/// else the committed answer.
pub open spec fn concluded(receipt_valid: bool, committed: bool) -> Result<bool, VrfError> {
    if receipt_valid {
        Ok(committed)
    } else {
        Err(VrfError::ReceiptInvalid)
    }
}

/// Decodes a proof from the input buffer and checks it: the whole of what
/// runs inside the provable environment.
pub fn verify_encoded(input: &Vec<u8>) -> (r: Result<bool, VrfError>)
    ensures
        r == attested(input@),
{
    match R0ECVRF::deserialize(input) {
        Ok(p) => verify(&p),
        Err(e) => Err(e),
    }
}

/// The outcome that a host takes from a finished execution. A receipt that
/// failed its check leaves the outcome unknown; it is never read as `false`.
pub fn journal_outcome(receipt_valid: bool, committed: bool) -> (r: Result<bool, VrfError>)
    ensures
        r == concluded(receipt_valid, committed),
{
    if receipt_valid {
        Ok(committed)
    } else {
        Err(VrfError::ReceiptInvalid)
    }
}

/// Checking the encoding of a record gives what checking the record gives.
pub proof fn lemma_encoding_keeps_verdict(p: R0ECVRF)
    requires
        p@.encodable(),
    ensures
        attested(encoded(p@)) == verdict(p@),
{
    lemma_round_trip(p);
}

} // verus!
