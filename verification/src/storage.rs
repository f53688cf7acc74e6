//! 32-byte-key to 32-byte-value access to host-managed persistent storage.
//!
//! Nothing is cached locally: every load and store is a fresh round-trip to
//! the host.  A load answers with the newest value stored under the key, or
//! zero bytes for a key never stored to; a store changes the value the host
//! reports for its key and nothing else.

use vstd::prelude::*;

use crate::host::{stored_bytes, stored_value, Host};
use crate::host::storage_index;
use crate::values::{Bytes32, StorageKey, StorageValue};

verus! {

/// Read the value the host holds under a storage key: the newest stored
/// value byte-for-byte, or zero bytes for a key never stored to.
pub fn storage_load(host: &Host, key: &StorageKey) -> (r: StorageValue)
    ensures
        r.bytes@ == stored_bytes(host.storage@, key.bytes@),
{
    match storage_index(&host.storage, key) {
        Some(i) => host.storage[i].1,
        None => Bytes32::zero(),
    }
}

/// Write a value under a storage key.  Afterwards the host reports exactly
/// this value for this key, and every other key reads as before.
pub fn storage_store(host: &mut Host, key: &StorageKey, value: &StorageValue)
    requires
        old(host).running(),
    ensures
        *final(host) == (Host { storage: final(host).storage, ..*old(host) }),
        final(host).storage@ == old(host).storage@.push((*key, *value)),
        stored_value(final(host).storage@, key.bytes@) == Some(*value),
        forall|other: Seq<u8>|
            other != key.bytes@ ==> stored_bytes(final(host).storage@, other) == stored_bytes(
                old(host).storage@,
                other,
            ),
{
    host.storage.push((*key, *value));
    proof {
        assert(host.storage@.drop_last() =~= old(host).storage@);
        assert forall|other: Seq<u8>| other != key.bytes@ implies stored_bytes(
            host.storage@,
            other,
        ) == stored_bytes(old(host).storage@, other) by {
            assert(host.storage@.last() == (*key, *value));
            assert(stored_value(host.storage@, other) == stored_value(
                old(host).storage@,
                other,
            ));
        }
    }
}

} // verus!
