//! Control-transfer operations: calls, contract creation, and the operations
//! that end an execution context.
//!
//! Each call variant forwards a gas limit, a target address (and a value, for
//! the two value-transferring variants) and a data payload to the host, then
//! decodes the host's 3-valued result code.  A code outside the three defined
//! ones is a violation of the adapter's contract with the host: it is
//! returned as an explicit [`HostViolation`] and the context transitions to
//! its aborted terminal state, since no defined recovery action exists.
//!
//! The terminal operations — finish, revert, self-destruct — never return
//! control in a live host.  Here each one moves the context's status to the
//! matching terminal value carrying its output, which is the last observable
//! change to the context.

use vstd::prelude::*;

use crate::host::{CallKind, CallRequest, CreateRequest, Host, Status};
use crate::results::{
    decode_call_result,
    decode_create_result,
    spec_decode_call_result,
    spec_decode_create_result,
    CallResult,
    CreateResult,
    HostViolation,
};
use crate::values::{Address, EtherValue};
use vstd::slice::slice_to_vec;

verus! {

/// Forward one call request to the host and decode its answer; on an
/// unrecognized result code the context aborts.
fn call(
    host: &mut Host,
    kind: CallKind,
    gas_limit: u64,
    address: &Address,
    value: Option<EtherValue>,
    data: &[u8],
) -> (r: Result<CallResult, HostViolation>)
    requires
        old(host).running(),
    ensures
        *final(host) == (Host {
            calls: final(host).calls,
            status: final(host).status,
            ..*old(host)
        }),
        final(host).calls@ == old(host).calls@.push(final(host).calls@.last()),
        ({
            let request = final(host).calls@.last();
            &&& request.kind == kind
            &&& request.gas_limit == gas_limit
            &&& request.address == *address
            &&& request.value == value
            &&& request.data@ == data@
        }),
        match spec_decode_call_result(old(host).call_response) {
            Some(outcome) => r == Ok::<CallResult, HostViolation>(outcome) && final(host).status
                == old(host).status,
            None => r == Err::<CallResult, HostViolation>(
                HostViolation::UnrecognizedResultCode(old(host).call_response),
            ) && final(host).status == Status::Aborted(old(host).call_response),
        },
{
    let request = CallRequest {
        kind,
        gas_limit,
        address: *address,
        value,
        data: slice_to_vec(data),
    };
    host.calls.push(request);
    let code = host.call_response;
    match decode_call_result(code) {
        Some(outcome) => Ok(outcome),
        None => {
            host.status = Status::Aborted(code);
            Err(HostViolation::UnrecognizedResultCode(code))
        },
    }
}

/// An ordinary, state-changing call carrying a value.
pub fn call_mutable(
    host: &mut Host,
    gas_limit: u64,
    address: &Address,
    value: &EtherValue,
    data: &[u8],
) -> (r: Result<CallResult, HostViolation>)
    requires
        old(host).running(),
    ensures
        *final(host) == (Host {
            calls: final(host).calls,
            status: final(host).status,
            ..*old(host)
        }),
        final(host).calls@ == old(host).calls@.push(final(host).calls@.last()),
        ({
            let request = final(host).calls@.last();
            &&& request.kind == CallKind::Call
            &&& request.gas_limit == gas_limit
            &&& request.address == *address
            &&& request.value == Some(*value)
            &&& request.data@ == data@
        }),
        match spec_decode_call_result(old(host).call_response) {
            Some(outcome) => r == Ok::<CallResult, HostViolation>(outcome) && final(host).status
                == old(host).status,
            None => r == Err::<CallResult, HostViolation>(
                HostViolation::UnrecognizedResultCode(old(host).call_response),
            ) && final(host).status == Status::Aborted(old(host).call_response),
        },
{
    call(host, CallKind::Call, gas_limit, address, Some(*value), data)
}

/// Run the target's code in the caller's context, carrying a value.
pub fn call_code(
    host: &mut Host,
    gas_limit: u64,
    address: &Address,
    value: &EtherValue,
    data: &[u8],
) -> (r: Result<CallResult, HostViolation>)
    requires
        old(host).running(),
    ensures
        *final(host) == (Host {
            calls: final(host).calls,
            status: final(host).status,
            ..*old(host)
        }),
        final(host).calls@ == old(host).calls@.push(final(host).calls@.last()),
        ({
            let request = final(host).calls@.last();
            &&& request.kind == CallKind::CallCode
            &&& request.gas_limit == gas_limit
            &&& request.address == *address
            &&& request.value == Some(*value)
            &&& request.data@ == data@
        }),
        match spec_decode_call_result(old(host).call_response) {
            Some(outcome) => r == Ok::<CallResult, HostViolation>(outcome) && final(host).status
                == old(host).status,
            None => r == Err::<CallResult, HostViolation>(
                HostViolation::UnrecognizedResultCode(old(host).call_response),
            ) && final(host).status == Status::Aborted(old(host).call_response),
        },
{
    call(host, CallKind::CallCode, gas_limit, address, Some(*value), data)
}

/// Run the target's code in the caller's context, keeping the caller's value.
pub fn call_delegate(
    host: &mut Host,
    gas_limit: u64,
    address: &Address,
    data: &[u8],
) -> (r: Result<CallResult, HostViolation>)
    requires
        old(host).running(),
    ensures
        *final(host) == (Host {
            calls: final(host).calls,
            status: final(host).status,
            ..*old(host)
        }),
        final(host).calls@ == old(host).calls@.push(final(host).calls@.last()),
        ({
            let request = final(host).calls@.last();
            &&& request.kind == CallKind::CallDelegate
            &&& request.gas_limit == gas_limit
            &&& request.address == *address
            &&& request.value is None
            &&& request.data@ == data@
        }),
        match spec_decode_call_result(old(host).call_response) {
            Some(outcome) => r == Ok::<CallResult, HostViolation>(outcome) && final(host).status
                == old(host).status,
            None => r == Err::<CallResult, HostViolation>(
                HostViolation::UnrecognizedResultCode(old(host).call_response),
            ) && final(host).status == Status::Aborted(old(host).call_response),
        },
{
    call(host, CallKind::CallDelegate, gas_limit, address, None, data)
}

/// A call that may not change state.
pub fn call_static(
    host: &mut Host,
    gas_limit: u64,
    address: &Address,
    data: &[u8],
) -> (r: Result<CallResult, HostViolation>)
    requires
        old(host).running(),
    ensures
        *final(host) == (Host {
            calls: final(host).calls,
            status: final(host).status,
            ..*old(host)
        }),
        final(host).calls@ == old(host).calls@.push(final(host).calls@.last()),
        ({
            let request = final(host).calls@.last();
            &&& request.kind == CallKind::CallStatic
            &&& request.gas_limit == gas_limit
            &&& request.address == *address
            &&& request.value is None
            &&& request.data@ == data@
        }),
        match spec_decode_call_result(old(host).call_response) {
            Some(outcome) => r == Ok::<CallResult, HostViolation>(outcome) && final(host).status
                == old(host).status,
            None => r == Err::<CallResult, HostViolation>(
                HostViolation::UnrecognizedResultCode(old(host).call_response),
            ) && final(host).status == Status::Aborted(old(host).call_response),
        },
{
    call(host, CallKind::CallStatic, gas_limit, address, None, data)
}

/// Forward a value and init-code payload for contract creation.  On success
/// the result carries exactly the address the host wrote into the freshly
/// allocated destination; on failure or revert the destination's contents are
/// host-defined garbage and are discarded, never exposed.  An unrecognized
/// result code aborts the context.
pub fn create(host: &mut Host, value: &EtherValue, data: &[u8]) -> (r: Result<
    CreateResult,
    HostViolation,
>)
    requires
        old(host).running(),
    ensures
        *final(host) == (Host {
            creates: final(host).creates,
            status: final(host).status,
            ..*old(host)
        }),
        final(host).creates@ == old(host).creates@.push(final(host).creates@.last()),
        ({
            let request = final(host).creates@.last();
            &&& request.value == *value
            &&& request.data@ == data@
        }),
        match spec_decode_create_result(old(host).create_response, old(host).created_address) {
            Some(outcome) => r == Ok::<CreateResult, HostViolation>(outcome) && final(host).status
                == old(host).status,
            None => r == Err::<CreateResult, HostViolation>(
                HostViolation::UnrecognizedResultCode(old(host).create_response),
            ) && final(host).status == Status::Aborted(old(host).create_response),
        },
{
    let request = CreateRequest { value: *value, data: slice_to_vec(data) };
    host.creates.push(request);
    let destination = Address::zero();
    let populated = if host.create_response == 0 {
        host.created_address
    } else {
        destination
    };
    let code = host.create_response;
    match decode_create_result(code, &populated) {
        Some(outcome) => Ok(outcome),
        None => {
            host.status = Status::Aborted(code);
            Err(HostViolation::UnrecognizedResultCode(code))
        },
    }
}

/// End the context successfully with no output.
pub fn finish(host: &mut Host)
    requires
        old(host).running(),
    ensures
        *final(host) == (Host { status: final(host).status, ..*old(host) }),
        final(host).status matches Status::Finished(output) && output@ == Seq::<u8>::empty(),
{
    host.status = Status::Finished(Vec::new());
}

/// End the context successfully, handing the host an output buffer.
pub fn finish_data(host: &mut Host, data: &[u8])
    requires
        old(host).running(),
    ensures
        *final(host) == (Host { status: final(host).status, ..*old(host) }),
        final(host).status matches Status::Finished(output) && output@ == data@,
{
    host.status = Status::Finished(slice_to_vec(data));
}

/// End the context by reverting with no output.
pub fn revert(host: &mut Host)
    requires
        old(host).running(),
    ensures
        *final(host) == (Host { status: final(host).status, ..*old(host) }),
        final(host).status matches Status::Reverted(output) && output@ == Seq::<u8>::empty(),
{
    host.status = Status::Reverted(Vec::new());
}

/// End the context by reverting, handing the host an output buffer.
pub fn revert_data(host: &mut Host, data: &[u8])
    requires
        old(host).running(),
    ensures
        *final(host) == (Host { status: final(host).status, ..*old(host) }),
        final(host).status matches Status::Reverted(output) && output@ == data@,
{
    host.status = Status::Reverted(slice_to_vec(data));
}

/// End the context by self-destructing toward a beneficiary address.
pub fn selfdestruct(host: &mut Host, address: &Address)
    requires
        old(host).running(),
    ensures
        *final(host) == (Host { status: final(host).status, ..*old(host) }),
        final(host).status == Status::SelfDestructed(*address),
{
    host.status = Status::SelfDestructed(*address);
}

} // verus!
