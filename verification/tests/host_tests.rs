use ewasm_api::host::Account;
use ewasm_api::values::{bytes20_eq, bytes32_eq};
use ewasm_api::{
    block_coinbase, block_difficulty, block_gas_limit, block_hash, block_number, block_timestamp,
    caller, callvalue, consume_gas, current_address, external_balance, gas_left, log0, log1, log2,
    log3, log4, storage_load, storage_store, tx_gas_price, tx_origin, Bytes20, Bytes32, Host,
    Uint128,
};

fn address_of(fill: u8) -> Bytes20 {
    Bytes20 { bytes: [fill; 20] }
}

fn word_of(fill: u8) -> Bytes32 {
    Bytes32 { bytes: [fill; 32] }
}

fn amount_of(fill: u8) -> Uint128 {
    Uint128 { bytes: [fill; 16] }
}

#[test]
fn accessors_return_exactly_what_the_host_wrote() {
    let mut host = Host::new();
    host.address = address_of(0x01);
    host.caller_address = address_of(0x02);
    host.origin = address_of(0x03);
    host.coinbase = address_of(0x04);
    host.call_value = amount_of(0x05);
    host.gas_price = amount_of(0x06);
    host.difficulty = word_of(0x07);

    assert_eq!(current_address(&host).bytes, [0x01; 20]);
    assert_eq!(caller(&host).bytes, [0x02; 20]);
    assert_eq!(tx_origin(&host).bytes, [0x03; 20]);
    assert_eq!(block_coinbase(&host).bytes, [0x04; 20]);
    assert_eq!(callvalue(&host).bytes, [0x05; 16]);
    assert_eq!(tx_gas_price(&host).bytes, [0x06; 16]);
    assert_eq!(block_difficulty(&host).bytes, [0x07; 32]);
}

#[test]
fn accessors_preserve_byte_order_and_width() {
    let mut written = [0u8; 20];
    for (i, byte) in written.iter_mut().enumerate() {
        *byte = i as u8;
    }
    let mut host = Host::new();
    host.address = Bytes20 { bytes: written };
    assert_eq!(current_address(&host).bytes, written);
}

#[test]
fn scalar_accessors_return_host_values() {
    let mut host = Host::new();
    host.gas_limit = 30_000_000;
    host.number = 19_000_000;
    host.timestamp = 1_700_000_000;
    host.gas = 21_000;

    assert_eq!(block_gas_limit(&host), 30_000_000);
    assert_eq!(block_number(&host), 19_000_000);
    assert_eq!(block_timestamp(&host), 1_700_000_000);
    assert_eq!(gas_left(&host), 21_000);
}

#[test]
fn consume_gas_reduces_gas_left() {
    let mut host = Host::new();
    host.gas = 100;
    consume_gas(&mut host, 30);
    assert_eq!(gas_left(&host), 70);
    consume_gas(&mut host, 200);
    assert_eq!(gas_left(&host), 0);
}

#[test]
fn external_balance_of_known_account_round_trips() {
    let target = address_of(0xaa);
    let mut host = Host::new();
    host.accounts.push(Account {
        address: target,
        balance: amount_of(0x99),
        code: Vec::new(),
    });
    assert_eq!(external_balance(&host, &target).bytes, [0x99; 16]);
}

#[test]
fn external_balance_of_unknown_account_is_zero() {
    let host = Host::new();
    assert_eq!(external_balance(&host, &address_of(0xbb)).bytes, [0; 16]);
}

#[test]
fn block_hash_follows_the_recorded_entry() {
    let mut host = Host::new();
    host.block_hashes.push((41, word_of(0x41)));
    host.block_hashes.push((42, word_of(0x42)));
    assert_eq!(block_hash(&host, 42).bytes, [0x42; 32]);
    assert_eq!(block_hash(&host, 41).bytes, [0x41; 32]);
    assert_eq!(block_hash(&host, 40).bytes, [0; 32]);
}

#[test]
fn storage_round_trips_what_was_stored() {
    let mut host = Host::new();
    let key = word_of(0x10);
    let value = word_of(0x20);
    storage_store(&mut host, &key, &value);
    assert_eq!(storage_load(&host, &key).bytes, [0x20; 32]);
}

#[test]
fn storage_load_of_unset_key_is_zero() {
    let host = Host::new();
    assert_eq!(storage_load(&host, &word_of(0x10)).bytes, [0; 32]);
}

#[test]
fn storage_store_overwrites_and_leaves_other_keys_alone() {
    let mut host = Host::new();
    let key = word_of(0x10);
    let other = word_of(0x11);
    storage_store(&mut host, &key, &word_of(0x20));
    storage_store(&mut host, &other, &word_of(0x30));
    storage_store(&mut host, &key, &word_of(0x40));
    assert_eq!(storage_load(&host, &key).bytes, [0x40; 32]);
    assert_eq!(storage_load(&host, &other).bytes, [0x30; 32]);
}

#[test]
fn log0_issues_no_meaningful_topics() {
    let mut host = Host::new();
    log0(&mut host, &[1, 2, 3]);
    assert_eq!(host.logs.len(), 1);
    let record = &host.logs[0];
    assert_eq!(record.data, vec![1, 2, 3]);
    assert_eq!(record.topic_count, 0);
    assert_eq!(record.topic1.bytes, [0; 32]);
    assert_eq!(record.topic2.bytes, [0; 32]);
    assert_eq!(record.topic3.bytes, [0; 32]);
    assert_eq!(record.topic4.bytes, [0; 32]);
}

#[test]
fn log1_issues_one_meaningful_topic_and_three_null_slots() {
    let mut host = Host::new();
    log1(&mut host, &[9], &word_of(0x01));
    let record = &host.logs[0];
    assert_eq!(record.topic_count, 1);
    assert_eq!(record.topic1.bytes, [0x01; 32]);
    assert_eq!(record.topic2.bytes, [0; 32]);
    assert_eq!(record.topic3.bytes, [0; 32]);
    assert_eq!(record.topic4.bytes, [0; 32]);
}

#[test]
fn log2_issues_two_meaningful_topics_and_two_null_slots() {
    let mut host = Host::new();
    log2(&mut host, &[7, 8], &word_of(0x01), &word_of(0x02));
    assert_eq!(host.logs.len(), 1);
    let record = &host.logs[0];
    assert_eq!(record.data, vec![7, 8]);
    assert_eq!(record.topic_count, 2);
    assert_eq!(record.topic1.bytes, [0x01; 32]);
    assert_eq!(record.topic2.bytes, [0x02; 32]);
    assert_eq!(record.topic3.bytes, [0; 32]);
    assert_eq!(record.topic4.bytes, [0; 32]);
}

#[test]
fn log3_issues_three_meaningful_topics_and_one_null_slot() {
    let mut host = Host::new();
    log3(
        &mut host,
        &[],
        &word_of(0x01),
        &word_of(0x02),
        &word_of(0x03),
    );
    let record = &host.logs[0];
    assert_eq!(record.topic_count, 3);
    assert_eq!(record.topic3.bytes, [0x03; 32]);
    assert_eq!(record.topic4.bytes, [0; 32]);
}

#[test]
fn log4_fills_every_slot() {
    let mut host = Host::new();
    log4(
        &mut host,
        &[0xff],
        &word_of(0x01),
        &word_of(0x02),
        &word_of(0x03),
        &word_of(0x04),
    );
    let record = &host.logs[0];
    assert_eq!(record.topic_count, 4);
    assert_eq!(record.topic1.bytes, [0x01; 32]);
    assert_eq!(record.topic2.bytes, [0x02; 32]);
    assert_eq!(record.topic3.bytes, [0x03; 32]);
    assert_eq!(record.topic4.bytes, [0x04; 32]);
}

#[test]
fn logs_accumulate_in_order() {
    let mut host = Host::new();
    log0(&mut host, &[1]);
    log0(&mut host, &[2]);
    assert_eq!(host.logs.len(), 2);
    assert_eq!(host.logs[0].data, vec![1]);
    assert_eq!(host.logs[1].data, vec![2]);
}

#[test]
fn zero_values_are_all_zero_bytes() {
    assert_eq!(Uint128::zero().bytes, [0; 16]);
    assert_eq!(Bytes20::zero().bytes, [0; 20]);
    assert_eq!(Bytes32::zero().bytes, [0; 32]);
    assert_eq!(Uint128::default().bytes, [0; 16]);
    assert_eq!(Bytes20::default().bytes, [0; 20]);
    assert_eq!(Bytes32::default().bytes, [0; 32]);
}

#[test]
fn byte_equality_is_exact() {
    let mut a = address_of(0x05);
    let b = address_of(0x05);
    assert!(bytes20_eq(&a, &b));
    a.bytes[19] = 0x06;
    assert!(!bytes20_eq(&a, &b));
    let mut c = word_of(0x07);
    let d = word_of(0x07);
    assert!(bytes32_eq(&c, &d));
    c.bytes[0] = 0;
    assert!(!bytes32_eq(&c, &d));
}
