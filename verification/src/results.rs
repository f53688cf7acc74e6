//! Outcome types and result-code decoding.
//!
//! The host answers every call and create operation with a small integer
//! result code.  Exactly three codes are defined; decoding them is a total,
//! exhaustive, order-preserving map, and any other code is a violation of the
//! host contract that ends the execution context.  The sole recoverable error
//! in the adapter is an out-of-bounds copy request.

use vstd::prelude::*;

use crate::values::Address;

verus! {

/// The one recoverable error: a checked copy was asked for a range that the
/// source does not cover.
#[derive(Copy, Clone, Debug, PartialEq, Eq)]
pub enum Error {
    OutOfBoundsCopy,
}

/// Outcome of a call operation, decoded from the host's result code.
#[derive(Copy, Clone, Debug, PartialEq, Eq)]
pub enum CallResult {
    Successful,
    Failure,
    Revert,
}

/// Outcome of contract creation.  Only success carries the address the host
/// wrote; on failure or revert the populated destination buffer holds
/// host-defined garbage and is never exposed.
#[derive(Copy, Clone, Debug, PartialEq, Eq)]
pub enum CreateResult {
    Successful(Address),
    Failure,
    Revert,
}

/// A fatal violation of the adapter's contract with the host: a call or
/// create answered with a result code outside the three defined ones.  No
/// recovery action exists at this layer; the execution context is over.
#[derive(Copy, Clone, Debug, PartialEq, Eq)]
pub enum HostViolation {
    UnrecognizedResultCode(u32),
}

/// The host's three defined call result codes, in order; every other code is
/// undefined and decodes to nothing.
pub open spec fn spec_decode_call_result(code: u32) -> Option<CallResult> {
    if code == 0 {
        Some(CallResult::Successful)
    } else if code == 1 {
        Some(CallResult::Failure)
    } else if code == 2 {
        Some(CallResult::Revert)
    } else {
        None
    }
}

/// The same three codes for creation; success additionally carries the
/// address the host populated.
pub open spec fn spec_decode_create_result(code: u32, created: Address) -> Option<CreateResult> {
    if code == 0 {
        Some(CreateResult::Successful(created))
    } else if code == 1 {
        Some(CreateResult::Failure)
    } else if code == 2 {
        Some(CreateResult::Revert)
    } else {
        None
    }
}

/// Decode a call result code; `None` marks an unrecognized code.
pub fn decode_call_result(code: u32) -> (r: Option<CallResult>)
    ensures
        r == spec_decode_call_result(code),
{
    match code {
        0 => Some(CallResult::Successful),
        1 => Some(CallResult::Failure),
        2 => Some(CallResult::Revert),
        _ => None,
    }
}

/// Decode a creation result code, attaching the host-populated address only
/// on success; `None` marks an unrecognized code.
pub fn decode_create_result(code: u32, created: &Address) -> (r: Option<CreateResult>)
    ensures
        r == spec_decode_create_result(code, *created),
{
    match code {
        0 => Some(CreateResult::Successful(*created)),
        1 => Some(CreateResult::Failure),
        2 => Some(CreateResult::Revert),
        _ => None,
    }
}

/// Call-result decoding is total on the three defined codes, rejects every
/// other code, and preserves their order: codes 0, 1, 2 decode to
/// `Successful`, `Failure`, `Revert`, and nothing else decodes at all.
pub proof fn lemma_call_result_decoding_exhaustive()
    ensures
        spec_decode_call_result(0) == Some(CallResult::Successful),
        spec_decode_call_result(1) == Some(CallResult::Failure),
        spec_decode_call_result(2) == Some(CallResult::Revert),
        forall|code: u32| code <= 2 ==> #[trigger] spec_decode_call_result(code) is Some,
        forall|code: u32| code > 2 ==> #[trigger] spec_decode_call_result(code) is None,
{
}

/// Creation-result decoding carries the host-written address exactly on code
/// 0, carries nothing on codes 1 and 2, and rejects every other code.
pub proof fn lemma_create_result_decoding_exhaustive(created: Address)
    ensures
        spec_decode_create_result(0, created) == Some(CreateResult::Successful(created)),
        spec_decode_create_result(1, created) == Some(CreateResult::Failure),
        spec_decode_create_result(2, created) == Some(CreateResult::Revert),
        forall|code: u32| code > 2 ==> #[trigger] spec_decode_create_result(code, created) is None,
{
}

} // verus!
