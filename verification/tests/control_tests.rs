use ewasm_api::host::CallKind;
use ewasm_api::results::{decode_call_result, decode_create_result};
use ewasm_api::{
    call_code, call_delegate, call_mutable, call_static, create, finish, finish_data, revert,
    revert_data, selfdestruct, Bytes20, CallResult, CreateResult, Host, HostViolation, Status,
    Uint128,
};

fn address_of(fill: u8) -> Bytes20 {
    Bytes20 { bytes: [fill; 20] }
}

fn amount_of(fill: u8) -> Uint128 {
    Uint128 { bytes: [fill; 16] }
}

fn host_answering_calls_with(code: u32) -> Host {
    let mut host = Host::new();
    host.call_response = code;
    host
}

#[test]
fn decode_call_result_maps_the_three_codes_in_order() {
    assert_eq!(decode_call_result(0), Some(CallResult::Successful));
    assert_eq!(decode_call_result(1), Some(CallResult::Failure));
    assert_eq!(decode_call_result(2), Some(CallResult::Revert));
    assert_eq!(decode_call_result(3), None);
    assert_eq!(decode_call_result(7), None);
    assert_eq!(decode_call_result(u32::MAX), None);
}

#[test]
fn decode_create_result_attaches_the_address_only_on_success() {
    let created = address_of(0xcd);
    assert_eq!(
        decode_create_result(0, &created),
        Some(CreateResult::Successful(created))
    );
    assert_eq!(decode_create_result(1, &created), Some(CreateResult::Failure));
    assert_eq!(decode_create_result(2, &created), Some(CreateResult::Revert));
    assert_eq!(decode_create_result(7, &created), None);
}

#[test]
fn every_call_variant_decodes_code_zero_as_successful() {
    let target = address_of(0x11);
    let value = amount_of(0x01);
    let mut host = host_answering_calls_with(0);
    assert_eq!(
        call_mutable(&mut host, 21000, &target, &value, &[]).unwrap(),
        CallResult::Successful
    );
    assert_eq!(
        call_code(&mut host, 21000, &target, &value, &[]).unwrap(),
        CallResult::Successful
    );
    assert_eq!(
        call_delegate(&mut host, 21000, &target, &[]).unwrap(),
        CallResult::Successful
    );
    assert_eq!(
        call_static(&mut host, 21000, &target, &[]).unwrap(),
        CallResult::Successful
    );
}

#[test]
fn every_call_variant_decodes_code_one_as_failure() {
    let target = address_of(0x11);
    let value = amount_of(0x01);
    let mut host = host_answering_calls_with(1);
    assert_eq!(
        call_mutable(&mut host, 1, &target, &value, &[9]).unwrap(),
        CallResult::Failure
    );
    assert_eq!(
        call_code(&mut host, 1, &target, &value, &[9]).unwrap(),
        CallResult::Failure
    );
    assert_eq!(
        call_delegate(&mut host, 1, &target, &[9]).unwrap(),
        CallResult::Failure
    );
    assert_eq!(
        call_static(&mut host, 1, &target, &[9]).unwrap(),
        CallResult::Failure
    );
}

#[test]
fn every_call_variant_decodes_code_two_as_revert() {
    let target = address_of(0x11);
    let value = amount_of(0x01);
    let mut host = host_answering_calls_with(2);
    assert_eq!(
        call_mutable(&mut host, 1, &target, &value, &[]).unwrap(),
        CallResult::Revert
    );
    assert_eq!(
        call_code(&mut host, 1, &target, &value, &[]).unwrap(),
        CallResult::Revert
    );
    assert_eq!(
        call_delegate(&mut host, 1, &target, &[]).unwrap(),
        CallResult::Revert
    );
    assert_eq!(
        call_static(&mut host, 1, &target, &[]).unwrap(),
        CallResult::Revert
    );
}

#[test]
fn unrecognized_call_code_aborts_the_context() {
    let mut host = host_answering_calls_with(7);
    let outcome = call_mutable(&mut host, 1, &address_of(0x11), &amount_of(0), &[]);
    assert_eq!(
        outcome.unwrap_err(),
        HostViolation::UnrecognizedResultCode(7)
    );
    assert_eq!(host.status, Status::Aborted(7));
}

#[test]
fn call_requests_are_forwarded_verbatim() {
    let target = address_of(0x22);
    let value = amount_of(0x33);
    let mut host = host_answering_calls_with(0);
    call_mutable(&mut host, 50_000, &target, &value, &[1, 2, 3]).unwrap();
    call_static(&mut host, 60_000, &target, &[4]).unwrap();
    assert_eq!(host.calls.len(), 2);
    let first = &host.calls[0];
    assert_eq!(first.kind, CallKind::Call);
    assert_eq!(first.gas_limit, 50_000);
    assert_eq!(first.address, target);
    assert_eq!(first.value, Some(value));
    assert_eq!(first.data, vec![1, 2, 3]);
    let second = &host.calls[1];
    assert_eq!(second.kind, CallKind::CallStatic);
    assert_eq!(second.value, None);
    assert_eq!(second.data, vec![4]);
}

#[test]
fn create_success_carries_the_host_written_address() {
    let mut host = Host::new();
    host.create_response = 0;
    host.created_address = address_of(0xcd);
    let outcome = create(&mut host, &amount_of(0x01), &[0x60]).unwrap();
    assert_eq!(outcome, CreateResult::Successful(address_of(0xcd)));
    assert_eq!(host.creates.len(), 1);
    assert_eq!(host.creates[0].value, amount_of(0x01));
    assert_eq!(host.creates[0].data, vec![0x60]);
}

#[test]
fn create_failure_and_revert_carry_no_address() {
    let mut host = Host::new();
    host.create_response = 1;
    host.created_address = address_of(0xcd);
    assert_eq!(
        create(&mut host, &amount_of(0), &[]).unwrap(),
        CreateResult::Failure
    );
    let mut host = Host::new();
    host.create_response = 2;
    host.created_address = address_of(0xcd);
    assert_eq!(
        create(&mut host, &amount_of(0), &[]).unwrap(),
        CreateResult::Revert
    );
}

#[test]
fn unrecognized_create_code_aborts_the_context() {
    let mut host = Host::new();
    host.create_response = 9;
    let outcome = create(&mut host, &amount_of(0), &[]);
    assert_eq!(
        outcome.unwrap_err(),
        HostViolation::UnrecognizedResultCode(9)
    );
    assert_eq!(host.status, Status::Aborted(9));
}

#[test]
fn finish_ends_the_context_with_empty_output() {
    let mut host = Host::new();
    finish(&mut host);
    assert_eq!(host.status, Status::Finished(Vec::new()));
}

#[test]
fn finish_data_ends_the_context_with_the_given_output() {
    let mut host = Host::new();
    finish_data(&mut host, &[1, 2, 3]);
    assert_eq!(host.status, Status::Finished(vec![1, 2, 3]));
}

#[test]
fn revert_ends_the_context_with_empty_output() {
    let mut host = Host::new();
    revert(&mut host);
    assert_eq!(host.status, Status::Reverted(Vec::new()));
}

#[test]
fn revert_data_ends_the_context_with_the_given_output() {
    let mut host = Host::new();
    revert_data(&mut host, &[0xde, 0xad]);
    assert_eq!(host.status, Status::Reverted(vec![0xde, 0xad]));
}

#[test]
fn selfdestruct_ends_the_context_toward_the_beneficiary() {
    let mut host = Host::new();
    selfdestruct(&mut host, &address_of(0x77));
    assert_eq!(host.status, Status::SelfDestructed(address_of(0x77)));
}

#[test]
fn a_fresh_context_is_running() {
    let host = Host::new();
    assert_eq!(host.status, Status::Running);
    assert!(host.logs.is_empty());
    assert!(host.calls.is_empty());
    assert!(host.creates.is_empty());
}
