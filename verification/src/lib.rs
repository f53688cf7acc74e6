//! A typed, bounds-checked adapter over a blockchain execution host.
//!
//! The host exposes account state, block metadata, storage, calls, logging and
//! control transfer through a flat, address-based calling convention.  This
//! crate converts that convention into strongly typed values and back: fixed
//! width byte containers, a bounds-checked copy protocol for variable-length
//! data, result-code decoding for the call and create operations, and explicit
//! terminal outcomes for the operations that end an execution context.
//!
//! The host is passed in as an explicit context value ([`host::Host`]) rather
//! than reached as ambient global state, so every operation's effect on the
//! context is stated in its contract and checked.

pub mod accessors;
pub mod control;
pub mod data;
pub mod host;
pub mod logging;
pub mod results;
pub mod storage;
pub mod values;

pub use crate::accessors::{block_coinbase, block_difficulty, block_gas_limit, block_hash};
pub use crate::accessors::{block_number, block_timestamp, caller, callvalue, consume_gas};
pub use crate::accessors::{current_address, external_balance, gas_left, tx_gas_price, tx_origin};
pub use crate::control::{call_code, call_delegate, call_mutable, call_static, create};
pub use crate::control::{finish, finish_data, revert, revert_data, selfdestruct};
pub use crate::data::{calldata_acquire, calldata_copy, calldata_size, unsafe_calldata_copy};
pub use crate::data::{code_acquire, code_copy, code_size, unsafe_code_copy};
pub use crate::data::{external_code_acquire, external_code_copy, external_code_size};
pub use crate::data::{returndata_acquire, returndata_copy, returndata_size};
pub use crate::data::{unsafe_external_code_copy, unsafe_returndata_copy};
pub use crate::host::{Host, Status};
pub use crate::logging::{log0, log1, log2, log3, log4};
pub use crate::results::{CallResult, CreateResult, Error, HostViolation};
pub use crate::storage::{storage_load, storage_store};
pub use crate::values::{Address, Bytes20, Bytes32, EtherValue, Uint128};
pub use crate::values::{Difficulty, StorageKey, StorageValue, Topic};
