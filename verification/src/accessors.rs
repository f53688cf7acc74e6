//! Read-only queries against host state, and gas accounting.
//!
//! Each accessor allocates a fresh zero-initialized destination of the
//! appropriate fixed-size type and has the host populate it; the returned
//! value's bytes are exactly what the host holds, byte order and width
//! preserved.  No error path exists at this layer — the host answers every
//! well-formed query.  Scalar queries return a 64-bit integer directly, with
//! no allocation.

use vstd::prelude::*;

use crate::host::{balance_bytes, block_hash_bytes, Host};
use crate::host::{account_index, block_hash_index};
use crate::values::{Address, Difficulty, EtherValue};
use crate::values::Bytes32;

verus! {

/// Hand `amount` of gas to the host's accounting.  The simulated host clamps
/// the remaining gas at zero; a live host signals exhaustion by terminating
/// the context out-of-band, which this layer never observes as a value.
pub fn consume_gas(host: &mut Host, amount: u64)
    requires
        old(host).running(),
    ensures
        *final(host) == (Host { gas: final(host).gas, ..*old(host) }),
        final(host).gas == if amount <= old(host).gas {
            (old(host).gas - amount) as u64
        } else {
            0u64
        },
{
    if amount <= host.gas {
        host.gas = host.gas - amount;
    } else {
        host.gas = 0;
    }
}

/// Gas remaining in this execution context.
pub fn gas_left(host: &Host) -> (r: u64)
    ensures
        r == host.gas,
{
    host.gas
}

/// The address of the executing contract.
pub fn current_address(host: &Host) -> (r: Address)
    ensures
        r == host.address,
{
    host.address
}

/// The balance of an arbitrary account: the account's balance byte-for-byte,
/// or zero for an address the host does not know.
pub fn external_balance(host: &Host, address: &Address) -> (r: EtherValue)
    ensures
        r.bytes@ == balance_bytes(host.accounts@, address.bytes@),
{
    match account_index(&host.accounts, address) {
        Some(i) => host.accounts[i].balance,
        None => EtherValue::zero(),
    }
}

/// The current block's beneficiary address.
pub fn block_coinbase(host: &Host) -> (r: Address)
    ensures
        r == host.coinbase,
{
    host.coinbase
}

/// The current block's difficulty, as opaque bytes.
pub fn block_difficulty(host: &Host) -> (r: Difficulty)
    ensures
        r == host.difficulty,
{
    host.difficulty
}

/// The current block's gas limit.
pub fn block_gas_limit(host: &Host) -> (r: u64)
    ensures
        r == host.gas_limit,
{
    host.gas_limit
}

/// The hash of the block with the given number: the recorded hash
/// byte-for-byte, or zero for a number the host does not know.
pub fn block_hash(host: &Host, number: u64) -> (r: crate::values::Hash)
    ensures
        r.bytes@ == block_hash_bytes(host.block_hashes@, number),
{
    match block_hash_index(&host.block_hashes, number) {
        Some(i) => host.block_hashes[i].1,
        None => Bytes32::zero(),
    }
}

/// The current block's number.
pub fn block_number(host: &Host) -> (r: u64)
    ensures
        r == host.number,
{
    host.number
}

/// The current block's timestamp.
pub fn block_timestamp(host: &Host) -> (r: u64)
    ensures
        r == host.timestamp,
{
    host.timestamp
}

/// The transaction's gas price.
pub fn tx_gas_price(host: &Host) -> (r: EtherValue)
    ensures
        r == host.gas_price,
{
    host.gas_price
}

/// The transaction's originating address.
pub fn tx_origin(host: &Host) -> (r: Address)
    ensures
        r == host.origin,
{
    host.origin
}

/// The address of the account that called the executing contract.
pub fn caller(host: &Host) -> (r: Address)
    ensures
        r == host.caller_address,
{
    host.caller_address
}

/// The value transferred with the current call.
pub fn callvalue(host: &Host) -> (r: EtherValue)
    ensures
        r == host.call_value,
{
    host.call_value
}

} // verus!
