//! Log operations.
//!
//! The host's log primitive always receives a data payload, four topic slots
//! and a count saying how many of the slots are meaningful; unused trailing
//! slots are passed as zero addresses.  Callers choose the arity by which
//! named operation they invoke — this is fixed-arity dispatch, not a
//! variable-argument primitive.  Each operation's contract states exactly
//! which record the host receives and that nothing else about the context
//! changes.

use vstd::prelude::*;

use crate::host::{Host, LogRecord};
use crate::values::{all_zero, Bytes32, Topic};
use vstd::slice::slice_to_vec;

verus! {

/// Issue one record to the host's log primitive: `topic_count` says how many
/// of the four slots are meaningful.
fn log(
    host: &mut Host,
    data: &[u8],
    topic_count: usize,
    topic1: &Topic,
    topic2: &Topic,
    topic3: &Topic,
    topic4: &Topic,
)
    requires
        old(host).running(),
    ensures
        *final(host) == (Host { logs: final(host).logs, ..*old(host) }),
        final(host).logs@ == old(host).logs@.push(final(host).logs@.last()),
        ({
            let record = final(host).logs@.last();
            &&& record.data@ == data@
            &&& record.topic_count == topic_count
            &&& record.topic1 == *topic1
            &&& record.topic2 == *topic2
            &&& record.topic3 == *topic3
            &&& record.topic4 == *topic4
        }),
{
    let record = LogRecord {
        data: slice_to_vec(data),
        topic_count,
        topic1: *topic1,
        topic2: *topic2,
        topic3: *topic3,
        topic4: *topic4,
    };
    host.logs.push(record);
}

/// Log a data payload with no topics: the primitive receives four zero slots
/// and a topic count of zero.
pub fn log0(host: &mut Host, data: &[u8])
    requires
        old(host).running(),
    ensures
        *final(host) == (Host { logs: final(host).logs, ..*old(host) }),
        final(host).logs@ == old(host).logs@.push(final(host).logs@.last()),
        ({
            let record = final(host).logs@.last();
            &&& record.data@ == data@
            &&& record.topic_count == 0
            &&& all_zero(record.topic1.bytes@)
            &&& all_zero(record.topic2.bytes@)
            &&& all_zero(record.topic3.bytes@)
            &&& all_zero(record.topic4.bytes@)
        }),
{
    let zero = Bytes32::zero();
    log(host, data, 0, &zero, &zero, &zero, &zero)
}

/// Log a data payload with one topic: one meaningful slot, three zero slots,
/// topic count one.
pub fn log1(host: &mut Host, data: &[u8], topic1: &Topic)
    requires
        old(host).running(),
    ensures
        *final(host) == (Host { logs: final(host).logs, ..*old(host) }),
        final(host).logs@ == old(host).logs@.push(final(host).logs@.last()),
        ({
            let record = final(host).logs@.last();
            &&& record.data@ == data@
            &&& record.topic_count == 1
            &&& record.topic1 == *topic1
            &&& all_zero(record.topic2.bytes@)
            &&& all_zero(record.topic3.bytes@)
            &&& all_zero(record.topic4.bytes@)
        }),
{
    let zero = Bytes32::zero();
    log(host, data, 1, topic1, &zero, &zero, &zero)
}

/// Log a data payload with two topics: two meaningful slots, two zero slots,
/// topic count two.
pub fn log2(host: &mut Host, data: &[u8], topic1: &Topic, topic2: &Topic)
    requires
        old(host).running(),
    ensures
        *final(host) == (Host { logs: final(host).logs, ..*old(host) }),
        final(host).logs@ == old(host).logs@.push(final(host).logs@.last()),
        ({
            let record = final(host).logs@.last();
            &&& record.data@ == data@
            &&& record.topic_count == 2
            &&& record.topic1 == *topic1
            &&& record.topic2 == *topic2
            &&& all_zero(record.topic3.bytes@)
            &&& all_zero(record.topic4.bytes@)
        }),
{
    let zero = Bytes32::zero();
    log(host, data, 2, topic1, topic2, &zero, &zero)
}

/// Log a data payload with three topics: three meaningful slots, one zero
/// slot, topic count three.
pub fn log3(host: &mut Host, data: &[u8], topic1: &Topic, topic2: &Topic, topic3: &Topic)
    requires
        old(host).running(),
    ensures
        *final(host) == (Host { logs: final(host).logs, ..*old(host) }),
        final(host).logs@ == old(host).logs@.push(final(host).logs@.last()),
        ({
            let record = final(host).logs@.last();
            &&& record.data@ == data@
            &&& record.topic_count == 3
            &&& record.topic1 == *topic1
            &&& record.topic2 == *topic2
            &&& record.topic3 == *topic3
            &&& all_zero(record.topic4.bytes@)
        }),
{
    let zero = Bytes32::zero();
    log(host, data, 3, topic1, topic2, topic3, &zero)
}

/// Log a data payload with four topics: every slot meaningful, topic count
/// four.
pub fn log4(
    host: &mut Host,
    data: &[u8],
    topic1: &Topic,
    topic2: &Topic,
    topic3: &Topic,
    topic4: &Topic,
)
    requires
        old(host).running(),
    ensures
        *final(host) == (Host { logs: final(host).logs, ..*old(host) }),
        final(host).logs@ == old(host).logs@.push(final(host).logs@.last()),
        ({
            let record = final(host).logs@.last();
            &&& record.data@ == data@
            &&& record.topic_count == 4
            &&& record.topic1 == *topic1
            &&& record.topic2 == *topic2
            &&& record.topic3 == *topic3
            &&& record.topic4 == *topic4
        }),
{
    log(host, data, 4, topic1, topic2, topic3, topic4)
}

} // verus!
