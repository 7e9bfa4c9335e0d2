//! The decisions of a resumable transfer.
//!
//! The caller owns the connection and the destination file. It reports
//! what happened on the stream, one event at a time, and does what the
//! returned action says. The state counts the bytes that were written, so
//! that a new request asks only for what is still missing.

use crate::text::decimal;
use crate::text::decimal_string;
use crate::text::join3;
use crate::text::joined;
use vstd::prelude::*;

verus! {

/// How many attempts one transfer may make, the first included.
pub const RETRY_LIMIT: u32 = 5;

/// Progress of one transfer.
#[derive(Debug, Clone, Copy, PartialEq, Eq, Structural)]
pub struct TransferState {
    /// Bytes written to the destination so far.
    pub saved_len: u64,
    /// The number of the attempt under way, counted from one.
    pub retry_num: u32,
}

/// What happened on the response stream.
#[derive(Debug, Clone, Copy, PartialEq, Eq, Structural)]
pub enum TransferEvent {
    /// A chunk of this many bytes was read and appended to the destination.
    ChunkWritten(u64),
    /// Reading the stream failed.
    StreamFailed,
    /// The stream ended cleanly.
    StreamEnded,
}

/// What the caller does next.
#[derive(Debug, Clone, Copy, PartialEq, Eq, Structural)]
pub enum TransferAction {
    /// Read the next item of the same stream.
    ReadOn,
    /// Drop the stream and send a new request for the bytes from `offset` on.
    Request { offset: u64 },
    /// Give up; the stream's error is the transfer's error.
    Fail,
    /// Flush the destination and announce the artifact.
    Finish,
}

/// The state before anything was requested.
pub open spec fn initial_state() -> TransferState {
    TransferState { saved_len: 0, retry_num: 1 }
}

/// The state that follows `state` on `event`.
pub open spec fn next_state(state: TransferState, event: TransferEvent) -> TransferState {
    match event {
        TransferEvent::ChunkWritten(len) => TransferState {
            saved_len: (state.saved_len + len) as u64,
            retry_num: state.retry_num,
        },
        TransferEvent::StreamFailed => if state.retry_num >= RETRY_LIMIT {
            state
        } else {
            TransferState { saved_len: state.saved_len, retry_num: (state.retry_num + 1) as u32 }
        },
        TransferEvent::StreamEnded => state,
    }
}

/// The action that `event` calls for in `state`.
pub open spec fn next_action(state: TransferState, event: TransferEvent) -> TransferAction {
    match event {
        TransferEvent::ChunkWritten(_) => TransferAction::ReadOn,
        TransferEvent::StreamFailed => if state.retry_num >= RETRY_LIMIT {
            TransferAction::Fail
        } else {
            TransferAction::Request { offset: state.saved_len }
        },
        TransferEvent::StreamEnded => TransferAction::Finish,
    }
}

/// The value of the `Range` header that asks for the bytes from `offset` on.
pub open spec fn range_value(offset: u64) -> Seq<char> {
    joined("bytes="@, decimal(offset as nat), "-"@)
}

/// Total length of the chunks among `events`.
pub open spec fn written(events: Seq<TransferEvent>) -> nat
    decreases events.len(),
{
    if events.len() == 0 {
        0
    } else {
        let rest: nat = written(events.drop_last());
        match events.last() {
            TransferEvent::ChunkWritten(len) => rest + len as nat,
            _ => rest,
        }
    }
}

/// Number of stream failures among `events`.
pub open spec fn failures(events: Seq<TransferEvent>) -> nat
    decreases events.len(),
{
    if events.len() == 0 {
        0
    } else {
        let rest: nat = failures(events.drop_last());
        match events.last() {
            TransferEvent::StreamFailed => rest + 1,
            _ => rest,
        }
    }
}

/// The state reached from the initial one after `events`, in order.
pub open spec fn replay(events: Seq<TransferEvent>) -> TransferState
    decreases events.len(),
{
    if events.len() == 0 {
        initial_state()
    } else {
        next_state(replay(events.drop_last()), events.last())
    }
}

/// Starts a transfer: nothing written, first attempt, and a request for the
/// whole artifact.
pub fn begin() -> (r: (TransferState, TransferAction))
    ensures
        r.0 == initial_state(),
        r.1 == (TransferAction::Request { offset: 0 }),
{
    (TransferState { saved_len: 0, retry_num: 1 }, TransferAction::Request { offset: 0 })
}

/// Takes one event and says what to do next.
///
/// A written chunk adds to the count. A failed stream is answered by a new
/// request from the count reached, unless the attempt under way was the
/// last one allowed; then the transfer fails and the count stays.
pub fn step(state: TransferState, event: TransferEvent) -> (r: (TransferState, TransferAction))
    requires
        event matches TransferEvent::ChunkWritten(len) ==> state.saved_len + len <= u64::MAX,
    ensures
        r.0 == next_state(state, event),
        r.1 == next_action(state, event),
{
    match event {
        TransferEvent::ChunkWritten(len) => (
            TransferState { saved_len: state.saved_len + len, retry_num: state.retry_num },
            TransferAction::ReadOn,
        ),
        TransferEvent::StreamFailed => {
            if state.retry_num >= RETRY_LIMIT {
                (state, TransferAction::Fail)
            } else {
                (
                    TransferState { saved_len: state.saved_len, retry_num: state.retry_num + 1 },
                    TransferAction::Request { offset: state.saved_len },
                )
            }
        },
        TransferEvent::StreamEnded => (state, TransferAction::Finish),
    }
}

/// The `Range` header value for a request that resumes at `offset`.
pub fn range_header(offset: u64) -> (r: String)
    ensures
        r@ == range_value(offset),
{
    let digits = decimal_string(offset);
    join3("bytes=", digits.as_str(), "-")
}

/// After any run of events the count of saved bytes is the total length of
/// the chunks written, in whatever order chunks and failures came, and the
/// attempt number is one more than the number of failures, capped at the
/// limit.
pub proof fn lemma_replay_counts(events: Seq<TransferEvent>)
    requires
        written(events) <= u64::MAX,
    ensures
        replay(events).saved_len == written(events),
        replay(events).retry_num == if failures(events) < RETRY_LIMIT {
            1 + failures(events)
        } else {
            RETRY_LIMIT as nat
        },
    decreases events.len(),
{
    if events.len() > 0 {
        lemma_written_monotone(events);
        lemma_replay_counts(events.drop_last());
    }
}

/// Dropping the last event never raises the total written.
proof fn lemma_written_monotone(events: Seq<TransferEvent>)
    requires
        events.len() > 0,
    ensures
        written(events.drop_last()) <= written(events),
{
}

/// A failure after fewer than four earlier ones is answered by a request
/// whose offset is exactly the number of bytes written before it, and
/// nothing written is lost.
pub proof fn lemma_retry_resumes_where_writing_stopped(events: Seq<TransferEvent>)
    requires
        written(events) <= u64::MAX,
        failures(events) + 1 < RETRY_LIMIT,
    ensures
        next_action(replay(events), TransferEvent::StreamFailed) == (TransferAction::Request {
            offset: written(events) as u64,
        }),
        next_state(replay(events), TransferEvent::StreamFailed).saved_len == written(events),
{
    lemma_replay_counts(events);
}

/// The failure that follows four or more earlier ones is fatal, and the
/// count of saved bytes stays what the chunks before it added up to.
pub proof fn lemma_last_failure_is_fatal(events: Seq<TransferEvent>)
    requires
        written(events) <= u64::MAX,
        failures(events) + 1 >= RETRY_LIMIT,
    ensures
        next_action(replay(events), TransferEvent::StreamFailed) == TransferAction::Fail,
        next_state(replay(events), TransferEvent::StreamFailed) == replay(events),
        replay(events).saved_len == written(events),
{
    lemma_replay_counts(events);
}

/// One item of a response stream, with the bytes it carried.
pub enum StreamItem {
    /// A chunk that was read and appended to the destination.
    Chunk(Seq<u8>),
    /// The stream failed.
    Failure,
    /// The stream ended cleanly.
    End,
}

/// What the transfer is told of a stream item.
pub open spec fn event_of(item: StreamItem) -> TransferEvent {
    match item {
        StreamItem::Chunk(bytes) => TransferEvent::ChunkWritten(bytes.len() as u64),
        StreamItem::Failure => TransferEvent::StreamFailed,
        StreamItem::End => TransferEvent::StreamEnded,
    }
}

/// The events that a run of stream items is reported as.
pub open spec fn events_of(items: Seq<StreamItem>) -> Seq<TransferEvent> {
    Seq::new(items.len(), |i: int| event_of(items[i]))
}

/// The destination after the chunks among `items` were appended in order.
pub open spec fn file_after(items: Seq<StreamItem>) -> Seq<u8>
    decreases items.len(),
{
    if items.len() == 0 {
        Seq::empty()
    } else {
        match items.last() {
            StreamItem::Chunk(bytes) => file_after(items.drop_last()) + bytes,
            _ => file_after(items.drop_last()),
        }
    }
}

/// Where in the artifact the stream stands after `items`: the offset that
/// was last requested, plus the chunks read since. The offset of a request
/// is the one the transfer asked for.
pub open spec fn stream_position(items: Seq<StreamItem>) -> nat
    decreases items.len(),
{
    if items.len() == 0 {
        0
    } else {
        match items.last() {
            StreamItem::Chunk(bytes) => stream_position(items.drop_last()) + bytes.len(),
            StreamItem::Failure => replay(events_of(items.drop_last())).saved_len as nat,
            StreamItem::End => stream_position(items.drop_last()),
        }
    }
}

/// Whether every chunk among `items` holds the bytes of `source` at the
/// place where the stream stood: the origin honours the requested range.
pub open spec fn served_from(source: Seq<u8>, items: Seq<StreamItem>) -> bool
    decreases items.len(),
{
    if items.len() == 0 {
        true
    } else {
        &&& served_from(source, items.drop_last())
        &&& match items.last() {
            StreamItem::Chunk(bytes) => {
                let at: nat = stream_position(items.drop_last());
                &&& at + bytes.len() <= source.len()
                &&& bytes == source.subrange(at as int, (at + bytes.len()) as int)
            },
            _ => true,
        }
    }
}

/// Where the origin honours the requested range, the destination always
/// holds the first bytes of the artifact, in order, with none missing and
/// none twice, however often the stream failed; and the transfer's count is
/// the destination's length.
pub proof fn lemma_destination_is_prefix_of_source(source: Seq<u8>, items: Seq<StreamItem>)
    requires
        source.len() <= u64::MAX,
        served_from(source, items),
    ensures
        file_after(items).len() <= source.len(),
        file_after(items) == source.take(file_after(items).len() as int),
        stream_position(items) == file_after(items).len(),
        replay(events_of(items)).saved_len == file_after(items).len(),
    decreases items.len(),
{
    if items.len() == 0 {
        assert(file_after(items) =~= source.take(0));
        assert(events_of(items) =~= Seq::<TransferEvent>::empty());
    } else {
        let before = items.drop_last();
        lemma_destination_is_prefix_of_source(source, before);
        assert(events_of(items).drop_last() =~= events_of(before));
        assert(events_of(items).last() == event_of(items.last()));
        match items.last() {
            StreamItem::Chunk(bytes) => {
                let at: nat = file_after(before).len();
                assert(file_after(items) =~= source.take((at + bytes.len()) as int));
            },
            _ => {},
        }
    }
}

/// A transfer that ends cleanly once the stream has reached the end of the
/// artifact has saved the whole artifact.
pub proof fn lemma_finished_transfer_saved_the_source(source: Seq<u8>, items: Seq<StreamItem>)
    requires
        source.len() <= u64::MAX,
        served_from(source, items),
        stream_position(items) == source.len(),
    ensures
        file_after(items) == source,
{
    lemma_destination_is_prefix_of_source(source, items);
    assert(source.take(source.len() as int) =~= source);
}

} // verus!
