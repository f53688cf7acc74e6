//! The bounded copy protocol.
//!
//! Variable-length data — call data, own code, external code, return data —
//! is transferred from host-owned sources into freshly allocated, exactly
//! sized, adapter-owned buffers.  Each source answers a size query; the raw
//! copy primitive fills the destination unconditionally and performs no
//! bounds checking of its own, so asking it to read past the end of its
//! source is undefined.  The adapter's safety value-add is that every
//! caller-facing copy is either safe by construction (the acquire-all path,
//! whose range comes from a size query made immediately before) or checked
//! against the source's size before the raw primitive is ever invoked.  The
//! raw variants therefore carry the in-bounds range as a precondition; the
//! checked variants take any range and reject an out-of-bounds one with
//! [`Error::OutOfBoundsCopy`].

use vstd::prelude::*;

use crate::host::{external_code_bytes, Host};
use crate::host::account_index;
use crate::results::Error;
use crate::values::Address;

verus! {

/// The checked copies reject exactly these requests: the offset lies past the
/// end of the source, or fewer than `length` bytes remain at `offset`.
pub open spec fn copy_out_of_bounds(size: int, offset: int, length: int) -> bool {
    offset > size || size - offset < length
}

/// The rejection condition is the natural phrasing `offset + length > size`;
/// the executable check tests it as `offset > size || size - offset < length`
/// instead, which never risks unsigned overflow.
pub proof fn lemma_out_of_bounds_is_range_overrun(size: int, offset: int, length: int)
    requires
        0 <= size,
        0 <= offset,
        0 <= length,
    ensures
        copy_out_of_bounds(size, offset, length) <==> offset + length > size,
{
}

/// Decide whether a copy request fits inside a source of the given size,
/// computed without risking unsigned overflow.
pub fn copy_request_in_bounds(size: usize, offset: usize, length: usize) -> (r: bool)
    ensures
        r <==> !copy_out_of_bounds(size as int, offset as int, length as int),
{
    !(size < offset || size - offset < length)
}

/// Copy `length` bytes of `source` starting at `offset` into a fresh,
/// exactly sized buffer.
fn copy_range(source: &Vec<u8>, offset: usize, length: usize) -> (r: Vec<u8>)
    requires
        offset + length <= source@.len(),
    ensures
        r@ == source@.subrange(offset as int, offset as int + length as int),
{
    let n: usize = source.len();
    let mut r: Vec<u8> = Vec::new();
    let mut i: usize = 0;
    proof {
        assert(r@ =~= source@.subrange(offset as int, offset as int));
    }
    while i < length
        invariant
            i <= length,
            n == source@.len(),
            offset + length <= source@.len(),
            r@ == source@.subrange(offset as int, offset as int + i as int),
        decreases length - i,
    {
        r.push(source[offset + i]);
        i = i + 1;
        proof {
            assert(source@.subrange(offset as int, offset as int + i as int) =~= source@.subrange(
                offset as int,
                offset as int + (i - 1) as int,
            ).push(source@[offset as int + (i - 1)]));
        }
    }
    r
}

/// Length in bytes of the current call data.
pub fn calldata_size(host: &Host) -> (r: usize)
    ensures
        r == host.call_data@.len(),
{
    host.call_data.len()
}

/// Raw call-data copy: the caller owes the in-bounds range, as the host's
/// primitive checks nothing.
pub fn unsafe_calldata_copy(host: &Host, from: usize, length: usize) -> (r: Vec<u8>)
    requires
        from + length <= host.call_data@.len(),
    ensures
        r@ == host.call_data@.subrange(from as int, from as int + length as int),
{
    copy_range(&host.call_data, from, length)
}

/// The whole call data, in a fresh buffer of exactly its size.
pub fn calldata_acquire(host: &Host) -> (r: Vec<u8>)
    ensures
        r@ == host.call_data@,
{
    let r = unsafe_calldata_copy(host, 0, calldata_size(host));
    proof {
        assert(host.call_data@.subrange(0, host.call_data@.len() as int) =~= host.call_data@);
    }
    r
}

/// Bounds-checked call-data copy: any requested range, validated against the
/// source's size before the raw primitive runs.
pub fn calldata_copy(host: &Host, from: usize, length: usize) -> (r: Result<Vec<u8>, Error>)
    ensures
        match r {
            Ok(v) => !copy_out_of_bounds(host.call_data@.len() as int, from as int, length as int)
                && v@ == host.call_data@.subrange(from as int, from as int + length as int),
            Err(e) => copy_out_of_bounds(host.call_data@.len() as int, from as int, length as int)
                && e == Error::OutOfBoundsCopy,
        },
{
    if copy_request_in_bounds(calldata_size(host), from, length) {
        Ok(unsafe_calldata_copy(host, from, length))
    } else {
        Err(Error::OutOfBoundsCopy)
    }
}

/// Length in bytes of the executing contract's own code.
pub fn code_size(host: &Host) -> (r: usize)
    ensures
        r == host.code@.len(),
{
    host.code.len()
}

/// Raw code copy: the caller owes the in-bounds range.
pub fn unsafe_code_copy(host: &Host, from: usize, length: usize) -> (r: Vec<u8>)
    requires
        from + length <= host.code@.len(),
    ensures
        r@ == host.code@.subrange(from as int, from as int + length as int),
{
    copy_range(&host.code, from, length)
}

/// The whole code, in a fresh buffer of exactly its size.
pub fn code_acquire(host: &Host) -> (r: Vec<u8>)
    ensures
        r@ == host.code@,
{
    let r = unsafe_code_copy(host, 0, code_size(host));
    proof {
        assert(host.code@.subrange(0, host.code@.len() as int) =~= host.code@);
    }
    r
}

/// Bounds-checked code copy.
pub fn code_copy(host: &Host, from: usize, length: usize) -> (r: Result<Vec<u8>, Error>)
    ensures
        match r {
            Ok(v) => !copy_out_of_bounds(host.code@.len() as int, from as int, length as int)
                && v@ == host.code@.subrange(from as int, from as int + length as int),
            Err(e) => copy_out_of_bounds(host.code@.len() as int, from as int, length as int)
                && e == Error::OutOfBoundsCopy,
        },
{
    if copy_request_in_bounds(code_size(host), from, length) {
        Ok(unsafe_code_copy(host, from, length))
    } else {
        Err(Error::OutOfBoundsCopy)
    }
}

/// Length in bytes of the code deployed at an external address; zero for an
/// address the host does not know.
pub fn external_code_size(host: &Host, address: &Address) -> (r: usize)
    ensures
        r == external_code_bytes(host.accounts@, address.bytes@).len(),
{
    match account_index(&host.accounts, address) {
        Some(i) => host.accounts[i].code.len(),
        None => 0,
    }
}

/// Raw external-code copy: the caller owes the in-bounds range.
pub fn unsafe_external_code_copy(
    host: &Host,
    address: &Address,
    from: usize,
    length: usize,
) -> (r: Vec<u8>)
    requires
        from + length <= external_code_bytes(host.accounts@, address.bytes@).len(),
    ensures
        r@ == external_code_bytes(host.accounts@, address.bytes@).subrange(
            from as int,
            from as int + length as int,
        ),
{
    match account_index(&host.accounts, address) {
        Some(i) => copy_range(&host.accounts[i].code, from, length),
        None => {
            let r: Vec<u8> = Vec::new();
            proof {
                assert(r@ =~= external_code_bytes(host.accounts@, address.bytes@).subrange(
                    from as int,
                    from as int + length as int,
                ));
            }
            r
        },
    }
}

/// The whole code at an external address, in a fresh buffer of exactly its
/// size.
pub fn external_code_acquire(host: &Host, address: &Address) -> (r: Vec<u8>)
    ensures
        r@ == external_code_bytes(host.accounts@, address.bytes@),
{
    let r = unsafe_external_code_copy(host, address, 0, external_code_size(host, address));
    proof {
        let code = external_code_bytes(host.accounts@, address.bytes@);
        assert(code.subrange(0, code.len() as int) =~= code);
    }
    r
}

/// Bounds-checked external-code copy.
pub fn external_code_copy(
    host: &Host,
    address: &Address,
    from: usize,
    length: usize,
) -> (r: Result<Vec<u8>, Error>)
    ensures
        match r {
            Ok(v) => !copy_out_of_bounds(
                external_code_bytes(host.accounts@, address.bytes@).len() as int,
                from as int,
                length as int,
            ) && v@ == external_code_bytes(host.accounts@, address.bytes@).subrange(
                from as int,
                from as int + length as int,
            ),
            Err(e) => copy_out_of_bounds(
                external_code_bytes(host.accounts@, address.bytes@).len() as int,
                from as int,
                length as int,
            ) && e == Error::OutOfBoundsCopy,
        },
{
    if copy_request_in_bounds(external_code_size(host, address), from, length) {
        Ok(unsafe_external_code_copy(host, address, from, length))
    } else {
        Err(Error::OutOfBoundsCopy)
    }
}

/// Length in bytes of the return data left by the most recent call.
pub fn returndata_size(host: &Host) -> (r: usize)
    ensures
        r == host.return_data@.len(),
{
    host.return_data.len()
}

/// Raw return-data copy: the caller owes the in-bounds range.
pub fn unsafe_returndata_copy(host: &Host, from: usize, length: usize) -> (r: Vec<u8>)
    requires
        from + length <= host.return_data@.len(),
    ensures
        r@ == host.return_data@.subrange(from as int, from as int + length as int),
{
    copy_range(&host.return_data, from, length)
}

/// The whole return data, in a fresh buffer of exactly its size.
pub fn returndata_acquire(host: &Host) -> (r: Vec<u8>)
    ensures
        r@ == host.return_data@,
{
    let r = unsafe_returndata_copy(host, 0, returndata_size(host));
    proof {
        assert(host.return_data@.subrange(0, host.return_data@.len() as int)
            =~= host.return_data@);
    }
    r
}

/// Bounds-checked return-data copy.
pub fn returndata_copy(host: &Host, from: usize, length: usize) -> (r: Result<Vec<u8>, Error>)
    ensures
        match r {
            Ok(v) => !copy_out_of_bounds(
                host.return_data@.len() as int,
                from as int,
                length as int,
            ) && v@ == host.return_data@.subrange(from as int, from as int + length as int),
            Err(e) => copy_out_of_bounds(
                host.return_data@.len() as int,
                from as int,
                length as int,
            ) && e == Error::OutOfBoundsCopy,
        },
{
    if copy_request_in_bounds(returndata_size(host), from, length) {
        Ok(unsafe_returndata_copy(host, from, length))
    } else {
        Err(Error::OutOfBoundsCopy)
    }
}

} // verus!
