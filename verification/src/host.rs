//! The host boundary as an explicit context value.
//!
//! The execution host owns account state, block metadata, storage and the
//! data sources behind the copy protocol.  Rather than reaching it as ambient
//! global state, the adapter takes a [`Host`] context value into every
//! operation; the context carries what the host would answer each query with,
//! records every request the host receives (logs, calls, creations), and
//! tracks the status of the execution context.  Operations that change the
//! context require it to be running; exactly one terminal operation ends it,
//! and its contract says so.
//!
//! Queries keyed by an address, a storage key or a block number are answered
//! from association lists; the newest entry for a key wins, and a key with no
//! entry is answered with zero bytes (or empty code), matching a host that
//! knows nothing of it.

use vstd::prelude::*;

use crate::values::{all_zero, Address, Bytes32, Difficulty, EtherValue, StorageKey};
use crate::values::{bytes20_eq, bytes32_eq, StorageValue, Topic};

verus! {

/// One account the host knows: identifier, balance, and deployed code.
pub struct Account {
    pub address: Address,
    pub balance: EtherValue,
    pub code: Vec<u8>,
}

/// One record issued to the host's log primitive: the data payload, the
/// number of meaningful topic slots, and all four slots exactly as handed
/// over — the primitive always receives four, with unused trailing slots
/// passed as zero addresses.
pub struct LogRecord {
    pub data: Vec<u8>,
    pub topic_count: usize,
    pub topic1: Topic,
    pub topic2: Topic,
    pub topic3: Topic,
    pub topic4: Topic,
}

/// Which call operation issued a request.
#[derive(Copy, Clone, Debug, PartialEq, Eq)]
pub enum CallKind {
    Call,
    CallCode,
    CallDelegate,
    CallStatic,
}

/// One call request forwarded to the host: gas limit, target address, the
/// transferred value for the two value-transferring variants, and the data
/// payload.
pub struct CallRequest {
    pub kind: CallKind,
    pub gas_limit: u64,
    pub address: Address,
    pub value: Option<EtherValue>,
    pub data: Vec<u8>,
}

/// One creation request forwarded to the host.
pub struct CreateRequest {
    pub value: EtherValue,
    pub data: Vec<u8>,
}

/// The state of an execution context.  It is `Running` until exactly one
/// terminal operation ends it: finishing or reverting with an output buffer,
/// self-destructing toward a beneficiary, or aborting on an unrecognized
/// result code.  Once terminal, no further operation changes the context.
#[derive(Debug, PartialEq, Eq)]
pub enum Status {
    Running,
    Finished(Vec<u8>),
    Reverted(Vec<u8>),
    SelfDestructed(Address),
    Aborted(u32),
}

/// The host context.  Plain fields carry what the host answers queries with;
/// the request vectors record what the host has been handed; `status` is the
/// execution context's state.
pub struct Host {
    /// Data sources behind the bounded copy protocol.
    pub call_data: Vec<u8>,
    pub code: Vec<u8>,
    pub return_data: Vec<u8>,
    /// Account state answering balance and external-code queries.
    pub accounts: Vec<Account>,
    /// Persistent storage; stores append, loads take the newest entry.
    pub storage: Vec<(StorageKey, StorageValue)>,
    /// Block hashes answered by block number.
    pub block_hashes: Vec<(u64, Bytes32)>,
    /// Identity and transaction context.
    pub address: Address,
    pub caller_address: Address,
    pub call_value: EtherValue,
    pub origin: Address,
    pub gas_price: EtherValue,
    /// Block metadata.
    pub coinbase: Address,
    pub difficulty: Difficulty,
    pub gas_limit: u64,
    pub number: u64,
    pub timestamp: u64,
    /// Gas remaining in this context.
    pub gas: u64,
    /// Result code the host answers the next call with.
    pub call_response: u32,
    /// Result code the host answers the next creation with, and the address
    /// it writes into the destination buffer on success.
    pub create_response: u32,
    pub created_address: Address,
    /// Requests the host has received.
    pub logs: Vec<LogRecord>,
    pub calls: Vec<CallRequest>,
    pub creates: Vec<CreateRequest>,
    /// Execution context state.
    pub status: Status,
}

impl Host {
    /// The execution context has not yet been ended by a terminal operation.
    pub open spec fn running(&self) -> bool {
        self.status is Running
    }

    /// A fresh context: empty sources, no accounts or storage, zeroed
    /// metadata, nothing requested yet, and running.
    pub fn new() -> (r: Host)
        ensures
            r.call_data@ == Seq::<u8>::empty(),
            r.code@ == Seq::<u8>::empty(),
            r.return_data@ == Seq::<u8>::empty(),
            r.accounts@ == Seq::<Account>::empty(),
            r.storage@ == Seq::<(StorageKey, StorageValue)>::empty(),
            r.block_hashes@ == Seq::<(u64, Bytes32)>::empty(),
            all_zero(r.address.bytes@),
            all_zero(r.caller_address.bytes@),
            all_zero(r.call_value.bytes@),
            all_zero(r.origin.bytes@),
            all_zero(r.gas_price.bytes@),
            all_zero(r.coinbase.bytes@),
            all_zero(r.difficulty.bytes@),
            r.gas_limit == 0,
            r.number == 0,
            r.timestamp == 0,
            r.gas == 0,
            r.call_response == 0,
            r.create_response == 0,
            all_zero(r.created_address.bytes@),
            r.logs@ == Seq::<LogRecord>::empty(),
            r.calls@ == Seq::<CallRequest>::empty(),
            r.creates@ == Seq::<CreateRequest>::empty(),
            r.running(),
    {
        Host {
            call_data: Vec::new(),
            code: Vec::new(),
            return_data: Vec::new(),
            accounts: Vec::new(),
            storage: Vec::new(),
            block_hashes: Vec::new(),
            address: Address::zero(),
            caller_address: Address::zero(),
            call_value: EtherValue::zero(),
            origin: Address::zero(),
            gas_price: EtherValue::zero(),
            coinbase: Address::zero(),
            difficulty: Difficulty::zero(),
            gas_limit: 0,
            number: 0,
            timestamp: 0,
            gas: 0,
            call_response: 0,
            create_response: 0,
            created_address: Address::zero(),
            logs: Vec::new(),
            calls: Vec::new(),
            creates: Vec::new(),
            status: Status::Running,
        }
    }
}

/// The newest account entry whose address matches, if any.
pub open spec fn find_account(accounts: Seq<Account>, address: Seq<u8>) -> Option<Account>
    decreases accounts.len(),
{
    if accounts.len() == 0 {
        None
    } else if accounts.last().address.bytes@ == address {
        Some(accounts.last())
    } else {
        find_account(accounts.drop_last(), address)
    }
}

/// The newest storage entry for a key, if any.
pub open spec fn stored_value(
    storage: Seq<(StorageKey, StorageValue)>,
    key: Seq<u8>,
) -> Option<StorageValue>
    decreases storage.len(),
{
    if storage.len() == 0 {
        None
    } else if storage.last().0.bytes@ == key {
        Some(storage.last().1)
    } else {
        stored_value(storage.drop_last(), key)
    }
}

/// The newest hash entry for a block number, if any.
pub open spec fn find_block_hash(hashes: Seq<(u64, Bytes32)>, number: u64) -> Option<Bytes32>
    decreases hashes.len(),
{
    if hashes.len() == 0 {
        None
    } else if hashes.last().0 == number {
        Some(hashes.last().1)
    } else {
        find_block_hash(hashes.drop_last(), number)
    }
}

/// The balance the host reports for an address: the account's balance, or
/// zero bytes for an address it does not know.
pub open spec fn balance_bytes(accounts: Seq<Account>, address: Seq<u8>) -> Seq<u8> {
    match find_account(accounts, address) {
        Some(account) => account.balance.bytes@,
        None => Seq::new(16, |i: int| 0u8),
    }
}

/// The code the host reports for an address: the account's code, or empty
/// code for an address it does not know.
pub open spec fn external_code_bytes(accounts: Seq<Account>, address: Seq<u8>) -> Seq<u8> {
    match find_account(accounts, address) {
        Some(account) => account.code@,
        None => Seq::<u8>::empty(),
    }
}

/// The value the host reports for a storage key: the newest stored value, or
/// zero bytes for a key never stored to.
pub open spec fn stored_bytes(storage: Seq<(StorageKey, StorageValue)>, key: Seq<u8>) -> Seq<u8> {
    match stored_value(storage, key) {
        Some(value) => value.bytes@,
        None => Seq::new(32, |i: int| 0u8),
    }
}

/// The hash the host reports for a block number: the recorded hash, or zero
/// bytes for a number it does not know.
pub open spec fn block_hash_bytes(hashes: Seq<(u64, Bytes32)>, number: u64) -> Seq<u8> {
    match find_block_hash(hashes, number) {
        Some(hash) => hash.bytes@,
        None => Seq::new(32, |i: int| 0u8),
    }
}

/// Position of the newest account entry matching an address, if any.
pub(crate) fn account_index(accounts: &Vec<Account>, address: &Address) -> (r: Option<usize>)
    ensures
        match r {
            Some(i) => i < accounts@.len() && find_account(accounts@, address.bytes@) == Some(
                accounts@[i as int],
            ),
            None => find_account(accounts@, address.bytes@) is None,
        },
{
    let mut i: usize = accounts.len();
    proof {
        assert(accounts@.take(accounts@.len() as int) =~= accounts@);
    }
    while i > 0
        invariant
            i <= accounts@.len(),
            find_account(accounts@, address.bytes@) == find_account(
                accounts@.take(i as int),
                address.bytes@,
            ),
        decreases i,
    {
        i = i - 1;
        proof {
            assert(accounts@.take(i as int + 1).last() == accounts@[i as int]);
            assert(accounts@.take(i as int + 1).drop_last() =~= accounts@.take(i as int));
        }
        if bytes20_eq(&accounts[i].address, address) {
            return Some(i);
        }
    }
    proof {
        assert(accounts@.take(0) =~= Seq::<Account>::empty());
    }
    None
}

/// Position of the newest storage entry matching a key, if any.
pub(crate) fn storage_index(
    storage: &Vec<(StorageKey, StorageValue)>,
    key: &StorageKey,
) -> (r: Option<usize>)
    ensures
        match r {
            Some(i) => i < storage@.len() && stored_value(storage@, key.bytes@) == Some(
                storage@[i as int].1,
            ),
            None => stored_value(storage@, key.bytes@) is None,
        },
{
    let mut i: usize = storage.len();
    proof {
        assert(storage@.take(storage@.len() as int) =~= storage@);
    }
    while i > 0
        invariant
            i <= storage@.len(),
            stored_value(storage@, key.bytes@) == stored_value(
                storage@.take(i as int),
                key.bytes@,
            ),
        decreases i,
    {
        i = i - 1;
        proof {
            assert(storage@.take(i as int + 1).last() == storage@[i as int]);
            assert(storage@.take(i as int + 1).drop_last() =~= storage@.take(i as int));
        }
        if bytes32_eq(&storage[i].0, key) {
            return Some(i);
        }
    }
    proof {
        assert(storage@.take(0) =~= Seq::<(StorageKey, StorageValue)>::empty());
    }
    None
}

/// Position of the newest hash entry matching a block number, if any.
pub(crate) fn block_hash_index(hashes: &Vec<(u64, Bytes32)>, number: u64) -> (r: Option<usize>)
    ensures
        match r {
            Some(i) => i < hashes@.len() && find_block_hash(hashes@, number) == Some(
                hashes@[i as int].1,
            ),
            None => find_block_hash(hashes@, number) is None,
        },
{
    let mut i: usize = hashes.len();
    proof {
        assert(hashes@.take(hashes@.len() as int) =~= hashes@);
    }
    while i > 0
        invariant
            i <= hashes@.len(),
            find_block_hash(hashes@, number) == find_block_hash(hashes@.take(i as int), number),
        decreases i,
    {
        i = i - 1;
        proof {
            assert(hashes@.take(i as int + 1).last() == hashes@[i as int]);
            assert(hashes@.take(i as int + 1).drop_last() =~= hashes@.take(i as int));
        }
        if hashes[i].0 == number {
            return Some(i);
        }
    }
    proof {
        assert(hashes@.take(0) =~= Seq::<(u64, Bytes32)>::empty());
    }
    None
}

} // verus!
