//! What holds of the loop and its stores, whatever the messages are.

use crate::db::{ProcessErrorKind, StoreView};
use crate::firehose::decoded;
use crate::ingest::{
    decode_failure, dispatch_failure, spec_apply, spec_body_for, spec_resume_url, spec_step,
    CommandView, LoopStateView, SettingsView, SignalView, SinkReplyView, StoreWriteView,
};
use vstd::prelude::*;

verus! {

/// The stores after the loop, with the stream open, has taken the frame
/// `message` and seen it through; `reply` is what the sink answers if it is
/// asked.
pub open spec fn handled(
    store: StoreView,
    message: Seq<u8>,
    reply: SinkReplyView,
    settings: SettingsView,
) -> StoreView {
    let first = spec_step(LoopStateView::Streaming, SignalView::Binary(message), settings);
    let after = spec_apply(store, first.write);
    match first.next {
        LoopStateView::Dispatching { .. } => spec_apply(
            after,
            spec_step(first.next, SignalView::Sink(reply), settings).write,
        ),
        _ => after,
    }
}

/// Whether the sink is asked about `message` at all.
pub open spec fn dispatched(message: Seq<u8>, settings: SettingsView) -> bool {
    spec_step(LoopStateView::Streaming, SignalView::Binary(message), settings).command is Dispatch
}

/// The sink is asked about a message exactly where the message decodes to an
/// event that has operations in the namespace.
pub proof fn lemma_dispatch_only_what_matches(message: Seq<u8>, settings: SettingsView)
    ensures
        dispatched(message, settings) <==> (decoded(message) matches Ok((_, event))
            && spec_body_for(event, settings.namespace_prefix) is Some),
{
}

/// A message that decodes, and that the sink takes or that has nothing for the
/// sink, moves the cursor to its own position and leaves the dead letters as
/// they are.
pub proof fn lemma_success_moves_cursor(
    store: StoreView,
    message: Seq<u8>,
    reply: SinkReplyView,
    settings: SettingsView,
)
    ensures
        decoded(message) matches Ok((_, event)) ==> (!dispatched(message, settings)
            || reply.accepted() ==> handled(store, message, reply, settings) == store.advanced(
            event.sequence(),
        )),
{
}

/// A message that does not decode leaves the cursor where it is and adds one
/// dead letter: of kind `DecodeError`, at position -1, with the bytes of the
/// message.
pub proof fn lemma_decode_failure_is_recorded(
    store: StoreView,
    message: Seq<u8>,
    reply: SinkReplyView,
    settings: SettingsView,
)
    ensures
        decoded(message) matches Err(e) ==> {
            let after = handled(store, message, reply, settings);
            &&& after == store.recorded(decode_failure(message, e.message()))
            &&& after.cursor == store.cursor
            &&& after.dead_letters.len() == store.dead_letters.len() + 1
            &&& after.dead_letters.drop_last() == store.dead_letters
            &&& after.dead_letters.last().seq == -1
            &&& after.dead_letters.last().err_kind == ProcessErrorKind::DecodeError
            &&& after.dead_letters.last().source == Some(message)
        },
{
    if decoded(message) is Err {
        let e = decoded(message)->Err_0;
        let after = store.recorded(decode_failure(message, e.message()));
        assert(after.dead_letters.drop_last() =~= store.dead_letters);
    }
}

/// A message that decodes and that the sink does not take leaves the cursor
/// where it is and adds one dead letter: of kind `ProcessError`, at the
/// position of the message, with the sink's complaint and the bytes of the
/// message.
pub proof fn lemma_dispatch_failure_is_recorded(
    store: StoreView,
    message: Seq<u8>,
    reply: SinkReplyView,
    settings: SettingsView,
)
    ensures
        decoded(message) matches Ok((_, event)) ==> (dispatched(message, settings)
            && !reply.accepted() ==> {
            let after = handled(store, message, reply, settings);
            &&& after == store.recorded(
                dispatch_failure(event.sequence(), message, reply.complaint()),
            )
            &&& after.cursor == store.cursor
            &&& after.dead_letters.len() == store.dead_letters.len() + 1
            &&& after.dead_letters.drop_last() == store.dead_letters
            &&& after.dead_letters.last().seq == event.sequence()
            &&& after.dead_letters.last().err_kind == ProcessErrorKind::ProcessError
            &&& after.dead_letters.last().source == Some(message)
        }),
{
    if decoded(message) is Ok {
        let event = decoded(message)->Ok_0.1;
        let after = store.recorded(dispatch_failure(event.sequence(), message, reply.complaint()));
        assert(after.dead_letters.drop_last() =~= store.dead_letters);
    }
}

/// Handling one message twice, with success both times, leaves the stores as
/// handling it once does: the cursor stands at the position of the message.
pub proof fn lemma_reprocessing_is_idempotent(
    store: StoreView,
    message: Seq<u8>,
    first_reply: SinkReplyView,
    second_reply: SinkReplyView,
    settings: SettingsView,
)
    ensures
        decoded(message) matches Ok((_, event)) ==> ((!dispatched(message, settings) || (
            first_reply.accepted() && second_reply.accepted())) ==> {
            let once = handled(store, message, first_reply, settings);
            let twice = handled(once, message, second_reply, settings);
            &&& twice == once
            &&& twice.cursor == event.sequence()
        }),
{
}

/// Whatever the message and the sink's reply, handling it never removes or
/// changes a dead letter that is there, and leaves the cursor either where it
/// was or at the position of the message.
pub proof fn lemma_handling_only_appends(
    store: StoreView,
    message: Seq<u8>,
    reply: SinkReplyView,
    settings: SettingsView,
)
    ensures
        store.dead_letters.is_prefix_of(handled(store, message, reply, settings).dead_letters),
        handled(store, message, reply, settings).cursor == store.cursor || (decoded(
            message,
        ) matches Ok((_, event)) && handled(store, message, reply, settings).cursor
            == event.sequence()),
{
    let after = handled(store, message, reply, settings);
    assert(store.dead_letters =~= after.dead_letters.subrange(0, store.dead_letters.len() as int));
}

/// Once a message is seen through, the stream is still open and the next frame
/// is asked for: no message stops the loop.
pub proof fn lemma_a_message_never_stops_the_loop(
    message: Seq<u8>,
    reply: SinkReplyView,
    settings: SettingsView,
)
    ensures
        ({
            let first = spec_step(LoopStateView::Streaming, SignalView::Binary(message), settings);
            let last = if first.next is Dispatching {
                spec_step(first.next, SignalView::Sink(reply), settings)
            } else {
                first
            };
            last.next == LoopStateView::Streaming && last.command == CommandView::Receive
        }),
{
}

/// After any loss of the stream the loop reads the cursor, and then asks for
/// the stream behind exactly the position that it read, writing nothing.
pub proof fn lemma_resume_behind_the_cursor(cursor: i64, settings: SettingsView)
    ensures
        ({
            let t = spec_step(LoopStateView::Disconnected, SignalView::Cursor(cursor), settings);
            &&& t.next == LoopStateView::Connecting
            &&& t.write == StoreWriteView::Nothing
            &&& t.command == CommandView::Connect {
                url: spec_resume_url(settings.stream_url, cursor),
            }
        }),
        forall|state: LoopStateView|
            #![trigger spec_step(state, SignalView::StreamClosed, settings)]
            {
                let closed = spec_step(state, SignalView::StreamClosed, settings);
                let failed = spec_step(state, SignalView::StreamError, settings);
                let other = spec_step(state, SignalView::NonBinary, settings);
                &&& closed.next == LoopStateView::Disconnected
                &&& failed.next == LoopStateView::Disconnected
                &&& other.next == LoopStateView::Disconnected
                &&& closed.command is ReadCursor
                &&& failed.command is ReadCursor
                &&& other.command is ReadCursor
                &&& closed.write == StoreWriteView::Nothing
                &&& failed.write == StoreWriteView::Nothing
                &&& other.write == StoreWriteView::Nothing
            },
{
}

} // verus!
