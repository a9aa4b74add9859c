//! The ingestion loop as a state machine, and the handling of one message.
//!
//! Nothing here does any input or output. [`step`] takes what has just
//! happened and answers with what to write to the stores and what to do next;
//! the caller does it and comes back with the outcome.

use crate::db::{
    record_dead_letter, update_seq, ProcessError, ProcessErrorKind, ProcessErrorView, Store,
    StoreView,
};
use crate::firehose::{
    decoded, operation_views, read, EventView, OperationView, SubscribeRepos,
    SubscribeReposCommitOperation,
};
use crate::select::{borrowed_views, select_operations, spec_select_operations};
use crate::text::{decimal, decimal_text, join};
use vstd::prelude::*;
use vstd::slice::slice_to_vec;
use vstd::string::StringExecFns;

verus! {

/// How long to wait before reconnecting after a failure, in milliseconds.
pub const BACKOFF_MILLIS: u64 = 500;

/// What is sent to the sink for one commit.
#[derive(Debug, PartialEq)]
pub struct ConsumerBody {
    /// The operations of the commit that lie in the namespace, in order.
    pub ops: Vec<SubscribeReposCommitOperation>,
    pub repo: String,
    pub seq: i64,
}

/// The mathematical value of a [`ConsumerBody`].
pub ghost struct BodyView {
    pub ops: Seq<OperationView>,
    pub repo: Seq<char>,
    pub seq: i64,
}

impl View for ConsumerBody {
    type V = BodyView;

    open spec fn view(&self) -> BodyView {
        BodyView { ops: operation_views(self.ops@), repo: self.repo@, seq: self.seq }
    }
}

impl ConsumerBody {
    /// The position of the commit as the sink is given it: a decimal numeral,
    /// as text.
    pub fn sequence_text(&self) -> (r: String)
        ensures
            r@ == decimal(self.seq as int),
    {
        decimal_text(self.seq)
    }
}

/// The value of the `Authorization` header that goes with a request to the
/// sink.
pub fn bearer(secret: &str) -> (r: String)
    ensures
        r@ == "Bearer "@ + secret@,
{
    join("Bearer ", secret)
}

/// What came of a request to the sink.
#[derive(Debug, PartialEq)]
pub enum SinkReply {
    /// The sink answered with this status code.
    Status(u16),
    /// No answer was had; the text says why.
    Failed(String),
}

/// The mathematical value of a [`SinkReply`].
pub ghost enum SinkReplyView {
    Status(u16),
    Failed(Seq<char>),
}

impl View for SinkReply {
    type V = SinkReplyView;

    open spec fn view(&self) -> SinkReplyView {
        match self {
            SinkReply::Status(code) => SinkReplyView::Status(*code),
            SinkReply::Failed(cause) => SinkReplyView::Failed(cause@),
        }
    }
}

impl SinkReplyView {
    /// Whether the sink took what it was sent: it answered, with a status from
    /// 200 to 299.
    pub open spec fn accepted(self) -> bool {
        self matches SinkReplyView::Status(code) && 200 <= code < 300
    }

    /// Why the sink did not take what it was sent.
    pub open spec fn complaint(self) -> Seq<char> {
        match self {
            SinkReplyView::Status(code) => "Failed to send frontpage ops: "@ + decimal(code as int),
            SinkReplyView::Failed(cause) => cause,
        }
    }
}

/// Judges the reply of the sink: success for a status from 200 to 299, else
/// the complaint.
pub fn sink_outcome(reply: &SinkReply) -> (r: Result<(), String>)
    ensures
        r is Ok <==> reply@.accepted(),
        r matches Err(text) ==> text@ == reply@.complaint(),
{
    match reply {
        SinkReply::Status(code) => {
            if 200 <= *code && *code < 300 {
                Ok(())
            } else {
                let numeral = decimal_text(*code as i64);
                Err(join("Failed to send frontpage ops: ", numeral.as_str()))
            }
        },
        SinkReply::Failed(cause) => Err(cause.clone()),
    }
}

/// What a decoded message asks for.
#[derive(Debug, PartialEq)]
pub struct Inspection {
    /// The position of the message in the stream.
    pub sequence: i64,
    /// What to send to the sink; `None` where the message has nothing for it.
    pub body: Option<ConsumerBody>,
}

/// The mathematical value of an [`Inspection`].
pub ghost struct InspectionView {
    pub sequence: i64,
    pub body: Option<BodyView>,
}

impl View for Inspection {
    type V = InspectionView;

    open spec fn view(&self) -> InspectionView {
        InspectionView {
            sequence: self.sequence,
            body: match self.body {
                Some(body) => Some(body@),
                None => None,
            },
        }
    }
}

/// What is to be sent to the sink for an event, where anything is.
pub open spec fn spec_body_for(event: EventView, prefix: Seq<char>) -> Option<BodyView> {
    match spec_select_operations(event, prefix) {
        Some(ops) => Some(BodyView { ops, repo: event->Commit_0.repo, seq: event.sequence() }),
        None => None,
    }
}

/// The failure that records a message which could not be decoded.
pub open spec fn decode_failure(message: Seq<u8>, why: Seq<char>) -> ProcessErrorView {
    ProcessErrorView { seq: -1i64, inner: why, source: message, kind: ProcessErrorKind::DecodeError }
}

/// The failure that records a message which the sink did not take.
pub open spec fn dispatch_failure(sequence: i64, message: Seq<u8>, why: Seq<char>) -> ProcessErrorView {
    ProcessErrorView {
        seq: sequence,
        inner: why,
        source: message,
        kind: ProcessErrorKind::ProcessError,
    }
}

/// What a message asks for: its position and what to send to the sink, or,
/// where it does not decode, the failure to record.
pub open spec fn spec_inspect(message: Seq<u8>, prefix: Seq<char>) -> Result<
    InspectionView,
    ProcessErrorView,
> {
    match decoded(message) {
        Err(e) => Err(decode_failure(message, e.message())),
        Ok((_, event)) => Ok(
            InspectionView { sequence: event.sequence(), body: spec_body_for(event, prefix) },
        ),
    }
}

/// A copy of an operation.
fn copy_of(op: &SubscribeReposCommitOperation) -> (r: SubscribeReposCommitOperation)
    ensures
        r@ == op@,
{
    SubscribeReposCommitOperation { path: op.path.clone(), action: op.action, cid: op.cid }
}

/// Copies of borrowed operations, in order.
fn copies_of(ops: &Vec<&SubscribeReposCommitOperation>) -> (r: Vec<SubscribeReposCommitOperation>)
    ensures
        operation_views(r@) == borrowed_views(ops@),
{
    let mut out: Vec<SubscribeReposCommitOperation> = Vec::new();
    let mut i: usize = 0;
    while i < ops.len()
        invariant
            i <= ops.len(),
            out.len() == i,
            forall|k: int| 0 <= k < i ==> (#[trigger] out[k])@ == ops[k]@,
        decreases ops.len() - i,
    {
        let op = copy_of(ops[i]);
        out.push(op);
        i += 1;
    }
    assert(operation_views(out@) =~= borrowed_views(ops@));
    out
}

/// What is to be sent to the sink for an event, where anything is.
pub fn body_for(event: &SubscribeRepos, namespace_prefix: &str) -> (r: Option<ConsumerBody>)
    ensures
        match r {
            Some(body) => spec_body_for(event@, namespace_prefix@) == Some(body@),
            None => spec_body_for(event@, namespace_prefix@) is None,
        },
{
    match select_operations(event, namespace_prefix) {
        None => None,
        Some(ops) => match event {
            SubscribeRepos::Commit(commit) => Some(
                ConsumerBody {
                    ops: copies_of(&ops),
                    repo: commit.repo.clone(),
                    seq: commit.sequence,
                },
            ),
            _ => None,
        },
    }
}

/// Decodes a message and says what it asks for. The failure of a message that
/// does not decode carries -1 for its position, the decoder's complaint and
/// the bytes of the message.
pub fn inspect(message: &[u8], namespace_prefix: &str) -> (r: Result<Inspection, ProcessError>)
    ensures
        match r {
            Ok(found) => spec_inspect(message@, namespace_prefix@) == Ok::<
                InspectionView,
                ProcessErrorView,
            >(found@),
            Err(e) => spec_inspect(message@, namespace_prefix@) == Err::<
                InspectionView,
                ProcessErrorView,
            >(e@),
        },
{
    match read(message) {
        Err(e) => Err(
            ProcessError {
                seq: -1,
                inner: e.message(),
                source: slice_to_vec(message),
                kind: ProcessErrorKind::DecodeError,
            },
        ),
        Ok((_, event)) => Ok(
            Inspection { sequence: event.sequence(), body: body_for(&event, namespace_prefix) },
        ),
    }
}

/// What comes of a message at `sequence` once the sink has replied: the
/// position to move the cursor to, or the failure to record.
pub open spec fn spec_conclude(sequence: i64, message: Seq<u8>, reply: SinkReplyView) -> Result<
    i64,
    ProcessErrorView,
> {
    if reply.accepted() {
        Ok(sequence)
    } else {
        Err(dispatch_failure(sequence, message, reply.complaint()))
    }
}

/// Settles a message at `sequence` that was sent to the sink.
pub fn conclude(sequence: i64, message: Vec<u8>, reply: &SinkReply) -> (r: Result<
    i64,
    ProcessError,
>)
    ensures
        match r {
            Ok(seq) => spec_conclude(sequence, message@, reply@) == Ok::<i64, ProcessErrorView>(
                seq,
            ),
            Err(e) => spec_conclude(sequence, message@, reply@) == Err::<i64, ProcessErrorView>(
                e@,
            ),
        },
{
    match sink_outcome(reply) {
        Ok(()) => Ok(sequence),
        Err(why) => Err(
            ProcessError {
                seq: sequence,
                inner: why,
                source: message,
                kind: ProcessErrorKind::ProcessError,
            },
        ),
    }
}

/// What the loop is configured with.
#[derive(Debug, PartialEq)]
pub struct Settings {
    /// The address of the stream, without the resume position.
    pub stream_url: String,
    /// The namespace whose operations are forwarded.
    pub namespace_prefix: String,
}

/// The mathematical value of [`Settings`].
pub ghost struct SettingsView {
    pub stream_url: Seq<char>,
    pub namespace_prefix: Seq<char>,
}

impl View for Settings {
    type V = SettingsView;

    open spec fn view(&self) -> SettingsView {
        SettingsView { stream_url: self.stream_url@, namespace_prefix: self.namespace_prefix@ }
    }
}

/// The address at which the stream resumes behind position `cursor`.
pub open spec fn spec_resume_url(base: Seq<char>, cursor: i64) -> Seq<char> {
    base + "?cursor="@ + decimal(cursor as int)
}

/// The address at which the stream resumes behind position `cursor`.
pub fn resume_url(base: &str, cursor: i64) -> (r: String)
    ensures
        r@ == spec_resume_url(base@, cursor),
{
    let numeral = decimal_text(cursor);
    join(base, "?cursor=").concat(numeral.as_str())
}

/// Where the loop stands.
#[derive(Debug, PartialEq)]
pub enum LoopState {
    /// No stream is open; the cursor is being read.
    Disconnected,
    /// The stream is being opened.
    Connecting,
    /// The stream is open; the next frame is awaited.
    Streaming,
    /// The stream is open; the sink's reply on the message at `sequence` is
    /// awaited.
    Dispatching { sequence: i64, source: Vec<u8> },
}

/// The mathematical value of a [`LoopState`].
pub ghost enum LoopStateView {
    Disconnected,
    Connecting,
    Streaming,
    Dispatching { sequence: i64, source: Seq<u8> },
}

impl View for LoopState {
    type V = LoopStateView;

    open spec fn view(&self) -> LoopStateView {
        match self {
            LoopState::Disconnected => LoopStateView::Disconnected,
            LoopState::Connecting => LoopStateView::Connecting,
            LoopState::Streaming => LoopStateView::Streaming,
            LoopState::Dispatching { sequence, source } => LoopStateView::Dispatching {
                sequence: *sequence,
                source: source@,
            },
        }
    }
}

/// What has just happened.
#[derive(Debug, PartialEq)]
pub enum Signal {
    /// The cursor was read.
    Cursor(i64),
    /// The stream was opened.
    Connected,
    /// The stream could not be opened.
    ConnectFailed,
    /// A binary frame arrived.
    Binary(Vec<u8>),
    /// A frame arrived that is not binary.
    NonBinary,
    /// The stream failed.
    StreamError,
    /// The stream ended.
    StreamClosed,
    /// The request to the sink came to an end.
    Sink(SinkReply),
}

/// The mathematical value of a [`Signal`].
pub ghost enum SignalView {
    Cursor(i64),
    Connected,
    ConnectFailed,
    Binary(Seq<u8>),
    NonBinary,
    StreamError,
    StreamClosed,
    Sink(SinkReplyView),
}

impl View for Signal {
    type V = SignalView;

    open spec fn view(&self) -> SignalView {
        match self {
            Signal::Cursor(c) => SignalView::Cursor(*c),
            Signal::Connected => SignalView::Connected,
            Signal::ConnectFailed => SignalView::ConnectFailed,
            Signal::Binary(bytes) => SignalView::Binary(bytes@),
            Signal::NonBinary => SignalView::NonBinary,
            Signal::StreamError => SignalView::StreamError,
            Signal::StreamClosed => SignalView::StreamClosed,
            Signal::Sink(reply) => SignalView::Sink(reply@),
        }
    }
}

/// What to write to the stores.
#[derive(Debug, PartialEq)]
pub enum StoreWrite {
    Nothing,
    /// Move the cursor to this position.
    Advance(i64),
    /// Record this failure among the dead letters.
    Record(ProcessError),
}

/// The mathematical value of a [`StoreWrite`].
pub ghost enum StoreWriteView {
    Nothing,
    Advance(i64),
    Record(ProcessErrorView),
}

impl View for StoreWrite {
    type V = StoreWriteView;

    open spec fn view(&self) -> StoreWriteView {
        match self {
            StoreWrite::Nothing => StoreWriteView::Nothing,
            StoreWrite::Advance(seq) => StoreWriteView::Advance(*seq),
            StoreWrite::Record(e) => StoreWriteView::Record(e@),
        }
    }
}

/// What to do next; its outcome is the next [`Signal`].
#[derive(Debug, PartialEq)]
pub enum Command {
    /// Wait for `delay_millis`, then read the cursor.
    ReadCursor { delay_millis: u64 },
    /// Open the stream at this address.
    Connect { url: String },
    /// Take the next frame from the stream.
    Receive,
    /// Send this to the sink.
    Dispatch(ConsumerBody),
}

/// The mathematical value of a [`Command`].
pub ghost enum CommandView {
    ReadCursor { delay_millis: u64 },
    Connect { url: Seq<char> },
    Receive,
    Dispatch(BodyView),
}

impl View for Command {
    type V = CommandView;

    open spec fn view(&self) -> CommandView {
        match self {
            Command::ReadCursor { delay_millis } => CommandView::ReadCursor {
                delay_millis: *delay_millis,
            },
            Command::Connect { url } => CommandView::Connect { url: url@ },
            Command::Receive => CommandView::Receive,
            Command::Dispatch(body) => CommandView::Dispatch(body@),
        }
    }
}

/// One move of the loop: the state it goes to, what it writes first, and what
/// it does then.
#[derive(Debug, PartialEq)]
pub struct Transition {
    pub next: LoopState,
    pub write: StoreWrite,
    pub command: Command,
}

/// The mathematical value of a [`Transition`].
pub ghost struct TransitionView {
    pub next: LoopStateView,
    pub write: StoreWriteView,
    pub command: CommandView,
}

impl View for Transition {
    type V = TransitionView;

    open spec fn view(&self) -> TransitionView {
        TransitionView { next: self.next@, write: self.write@, command: self.command@ }
    }
}

/// The move that gives the stream up and starts over from the cursor, after
/// `delay_millis`.
pub open spec fn spec_restart(delay_millis: u64) -> TransitionView {
    TransitionView {
        next: LoopStateView::Disconnected,
        write: StoreWriteView::Nothing,
        command: CommandView::ReadCursor { delay_millis },
    }
}

/// The move that settles a message and takes the next frame.
pub open spec fn spec_settle(outcome: Result<i64, ProcessErrorView>) -> TransitionView {
    TransitionView {
        next: LoopStateView::Streaming,
        write: match outcome {
            Ok(sequence) => StoreWriteView::Advance(sequence),
            Err(e) => StoreWriteView::Record(e),
        },
        command: CommandView::Receive,
    }
}

/// The move of the loop in `state` when `signal` happens.
///
/// - Disconnected, the cursor read: open the stream behind the cursor.
/// - Connecting: on success take the first frame; on failure start over after
///   the backoff.
/// - Streaming, a binary frame: where it does not decode, record the failure;
///   where it has nothing for the sink, move the cursor to it; else send it to
///   the sink. A frame that is not binary, or the end of the stream: start
///   over at once. A failure of the stream: start over after the backoff.
/// - Dispatching, the sink's reply: on success move the cursor to the
///   message, else record the failure; either way take the next frame.
/// - A signal that the state does not await: start over at once.
pub open spec fn spec_step(
    state: LoopStateView,
    signal: SignalView,
    settings: SettingsView,
) -> TransitionView {
    match (state, signal) {
        (LoopStateView::Disconnected, SignalView::Cursor(cursor)) => TransitionView {
            next: LoopStateView::Connecting,
            write: StoreWriteView::Nothing,
            command: CommandView::Connect { url: spec_resume_url(settings.stream_url, cursor) },
        },
        (LoopStateView::Connecting, SignalView::Connected) => TransitionView {
            next: LoopStateView::Streaming,
            write: StoreWriteView::Nothing,
            command: CommandView::Receive,
        },
        (LoopStateView::Connecting, SignalView::ConnectFailed) => spec_restart(BACKOFF_MILLIS),
        (LoopStateView::Streaming, SignalView::Binary(message)) => match spec_inspect(
            message,
            settings.namespace_prefix,
        ) {
            Err(e) => spec_settle(Err(e)),
            Ok(found) => match found.body {
                None => spec_settle(Ok(found.sequence)),
                Some(body) => TransitionView {
                    next: LoopStateView::Dispatching { sequence: found.sequence, source: message },
                    write: StoreWriteView::Nothing,
                    command: CommandView::Dispatch(body),
                },
            },
        },
        (LoopStateView::Streaming, SignalView::StreamError) => spec_restart(BACKOFF_MILLIS),
        (LoopStateView::Dispatching { sequence, source }, SignalView::Sink(reply)) => spec_settle(
            spec_conclude(sequence, source, reply),
        ),
        _ => spec_restart(0),
    }
}

/// The move that gives the stream up and starts over from the cursor.
fn restart(delay_millis: u64) -> (r: Transition)
    ensures
        r@ == spec_restart(delay_millis),
{
    Transition {
        next: LoopState::Disconnected,
        write: StoreWrite::Nothing,
        command: Command::ReadCursor { delay_millis },
    }
}

/// The move that settles a message and takes the next frame.
fn settle(outcome: Result<i64, ProcessError>) -> (r: Transition)
    ensures
        match outcome {
            Ok(sequence) => r@ == spec_settle(Ok(sequence)),
            Err(e) => r@ == spec_settle(Err(e@)),
        },
{
    Transition {
        next: LoopState::Streaming,
        write: match outcome {
            Ok(sequence) => StoreWrite::Advance(sequence),
            Err(e) => StoreWrite::Record(e),
        },
        command: Command::Receive,
    }
}

/// The state in which the loop begins, with the command that sets it going.
pub fn start() -> (r: (LoopState, Command))
    ensures
        r.0@ == LoopStateView::Disconnected,
        r.1@ == (CommandView::ReadCursor { delay_millis: 0 }),
{
    (LoopState::Disconnected, Command::ReadCursor { delay_millis: 0 })
}

/// Decides the move of the loop in `state` when `signal` happens.
pub fn step(state: LoopState, signal: Signal, settings: &Settings) -> (r: Transition)
    ensures
        r@ == spec_step(state@, signal@, settings@),
{
    match state {
        LoopState::Disconnected => match signal {
            Signal::Cursor(cursor) => Transition {
                next: LoopState::Connecting,
                write: StoreWrite::Nothing,
                command: Command::Connect { url: resume_url(settings.stream_url.as_str(), cursor) },
            },
            _ => restart(0),
        },
        LoopState::Connecting => match signal {
            Signal::Connected => Transition {
                next: LoopState::Streaming,
                write: StoreWrite::Nothing,
                command: Command::Receive,
            },
            Signal::ConnectFailed => restart(BACKOFF_MILLIS),
            _ => restart(0),
        },
        LoopState::Streaming => match signal {
            Signal::Binary(message) => match inspect(
                message.as_slice(),
                settings.namespace_prefix.as_str(),
            ) {
                Err(e) => settle(Err(e)),
                Ok(found) => match found.body {
                    None => settle(Ok(found.sequence)),
                    Some(body) => Transition {
                        next: LoopState::Dispatching { sequence: found.sequence, source: message },
                        write: StoreWrite::Nothing,
                        command: Command::Dispatch(body),
                    },
                },
            },
            Signal::StreamError => restart(BACKOFF_MILLIS),
            _ => restart(0),
        },
        LoopState::Dispatching { sequence, source } => match signal {
            Signal::Sink(reply) => settle(conclude(sequence, source, &reply)),
            _ => restart(0),
        },
    }
}

/// The store after a write.
pub open spec fn spec_apply(store: StoreView, write: StoreWriteView) -> StoreView {
    match write {
        StoreWriteView::Nothing => store,
        StoreWriteView::Advance(sequence) => store.advanced(sequence),
        StoreWriteView::Record(e) => store.recorded(e),
    }
}

/// Does a write to the store.
pub fn apply(store: &mut Store, write: &StoreWrite)
    ensures
        final(store)@ == spec_apply(old(store)@, write@),
{
    match write {
        StoreWrite::Nothing => {},
        StoreWrite::Advance(sequence) => update_seq(store, *sequence),
        StoreWrite::Record(e) => record_dead_letter(store, e),
    }
}

} // verus!
