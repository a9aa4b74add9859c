//! The two stores that the ingestion loop writes: the cursor and the dead
//! letters, as the rows they hold.
//!
//! [`Store`] is the content of the stores in memory. The functions of this
//! module say what reading and writing mean on it; a durable store is expected
//! to do the same to its tables.

use crate::text::{decimal, decimal_text, join};
use vstd::prelude::*;
use vstd::slice::slice_to_vec;

verus! {

/// Why a message ended up among the dead letters.
#[derive(Debug, Clone, Copy, PartialEq, Eq, Structural)]
pub enum ProcessErrorKind {
    /// The message could not be decoded into an event.
    DecodeError,
    /// The event was decoded, but the sink did not take it.
    ProcessError,
}

impl ProcessErrorKind {
    /// The integer under which the kind is stored.
    pub open spec fn spec_code(self) -> i32 {
        match self {
            ProcessErrorKind::DecodeError => 0,
            ProcessErrorKind::ProcessError => 1,
        }
    }

    /// The integer under which the kind is stored.
    pub fn code(&self) -> (r: i32)
        ensures
            r == self.spec_code(),
    {
        match self {
            ProcessErrorKind::DecodeError => 0,
            ProcessErrorKind::ProcessError => 1,
        }
    }

    /// The kind that is stored under `code`, or the complaint that there is
    /// none.
    pub open spec fn spec_from_code(code: i32) -> Result<ProcessErrorKind, Seq<char>> {
        if code == 0 {
            Ok(ProcessErrorKind::DecodeError)
        } else if code == 1 {
            Ok(ProcessErrorKind::ProcessError)
        } else {
            Err("Unrecognized variant "@ + decimal(code as int))
        }
    }

    /// The kind that is stored under `code`.
    pub fn from_code(code: i32) -> (r: Result<ProcessErrorKind, String>)
        ensures
            match r {
                Ok(kind) => Self::spec_from_code(code) == Ok::<ProcessErrorKind, Seq<char>>(kind),
                Err(text) => Self::spec_from_code(code) == Err::<ProcessErrorKind, Seq<char>>(
                    text@,
                ),
            },
    {
        if code == 0 {
            Ok(ProcessErrorKind::DecodeError)
        } else if code == 1 {
            Ok(ProcessErrorKind::ProcessError)
        } else {
            let numeral = decimal_text(code as i64);
            Err(join("Unrecognized variant ", numeral.as_str()))
        }
    }
}

/// Storing a kind and reading it back gives the kind.
pub proof fn lemma_code_round_trip(kind: ProcessErrorKind)
    ensures
        ProcessErrorKind::spec_from_code(kind.spec_code()) == Ok::<ProcessErrorKind, Seq<char>>(
            kind,
        ),
{
}

/// A message that was not handled, with the reason.
#[derive(Debug, PartialEq)]
pub struct ProcessError {
    /// The position of the message in the stream; -1 where the message could
    /// not be decoded.
    pub seq: i64,
    /// The cause, in words.
    pub inner: String,
    /// The bytes of the message.
    pub source: Vec<u8>,
    pub kind: ProcessErrorKind,
}

/// The mathematical value of a [`ProcessError`].
pub ghost struct ProcessErrorView {
    pub seq: i64,
    pub inner: Seq<char>,
    pub source: Seq<u8>,
    pub kind: ProcessErrorKind,
}

impl View for ProcessError {
    type V = ProcessErrorView;

    open spec fn view(&self) -> ProcessErrorView {
        ProcessErrorView { seq: self.seq, inner: self.inner@, source: self.source@, kind: self.kind }
    }
}

/// The row of the cursor store: the position of the last message that was
/// handled.
#[derive(Debug, Clone, Copy, PartialEq, Eq, Structural)]
pub struct DrainpipeMeta {
    pub seq: i64,
}

/// A row of the dead-letter store.
#[derive(Debug, PartialEq)]
pub struct DeadLetter {
    pub seq: i64,
    pub err_kind: ProcessErrorKind,
    pub err_msg: String,
    /// The bytes of the message, where they were kept.
    pub source: Option<Vec<u8>>,
}

/// The mathematical value of a [`DeadLetter`].
pub ghost struct DeadLetterView {
    pub seq: i64,
    pub err_kind: ProcessErrorKind,
    pub err_msg: Seq<char>,
    pub source: Option<Seq<u8>>,
}

impl View for DeadLetter {
    type V = DeadLetterView;

    open spec fn view(&self) -> DeadLetterView {
        DeadLetterView {
            seq: self.seq,
            err_kind: self.err_kind,
            err_msg: self.err_msg@,
            source: match self.source {
                Some(bytes) => Some(bytes@),
                None => None,
            },
        }
    }
}

/// The values of a sequence of dead letters, in order.
pub open spec fn letter_views(letters: Seq<DeadLetter>) -> Seq<DeadLetterView> {
    letters.map_values(|letter: DeadLetter| letter@)
}

/// The dead letter that records a failure.
pub open spec fn letter_of(e: ProcessErrorView) -> DeadLetterView {
    DeadLetterView { seq: e.seq, err_kind: e.kind, err_msg: e.inner, source: Some(e.source) }
}

/// What the two stores hold.
#[derive(Debug, PartialEq)]
pub struct Store {
    /// The cursor.
    pub drainpipe: DrainpipeMeta,
    /// The dead letters, oldest first.
    pub dead_letter_queue: Vec<DeadLetter>,
}

/// The mathematical value of a [`Store`].
pub ghost struct StoreView {
    pub cursor: i64,
    pub dead_letters: Seq<DeadLetterView>,
}

impl View for Store {
    type V = StoreView;

    open spec fn view(&self) -> StoreView {
        StoreView {
            cursor: self.drainpipe.seq,
            dead_letters: letter_views(self.dead_letter_queue@),
        }
    }
}

impl StoreView {
    /// The store after the cursor was set to `new_seq`.
    pub open spec fn advanced(self, new_seq: i64) -> StoreView {
        StoreView { cursor: new_seq, dead_letters: self.dead_letters }
    }

    /// The store after the failure `e` was recorded.
    pub open spec fn recorded(self, e: ProcessErrorView) -> StoreView {
        StoreView { cursor: self.cursor, dead_letters: self.dead_letters.push(letter_of(e)) }
    }
}

impl Store {
    /// A store with the cursor at `seq` and no dead letters.
    pub fn new(seq: i64) -> (r: Store)
        ensures
            r@ == (StoreView { cursor: seq, dead_letters: Seq::empty() }),
    {
        let r = Store { drainpipe: DrainpipeMeta { seq }, dead_letter_queue: Vec::new() };
        assert(letter_views(r.dead_letter_queue@) =~= Seq::<DeadLetterView>::empty());
        r
    }
}

/// Reads the cursor.
pub fn get_seq(store: &Store) -> (r: i64)
    ensures
        r == store@.cursor,
{
    store.drainpipe.seq
}

/// Sets the cursor to `new_seq`. The dead letters stay as they are.
pub fn update_seq(store: &mut Store, new_seq: i64)
    ensures
        final(store)@ == old(store)@.advanced(new_seq),
{
    store.drainpipe.seq = new_seq;
}

/// Appends the dead letter that records `e`. The cursor stays where it is.
pub fn record_dead_letter(store: &mut Store, e: &ProcessError)
    ensures
        final(store)@ == old(store)@.recorded(e@),
{
    let letter = DeadLetter {
        seq: e.seq,
        err_kind: e.kind,
        err_msg: e.inner.clone(),
        source: Some(slice_to_vec(e.source.as_slice())),
    };
    proof {
        assert(letter@ == letter_of(e@));
        assert(letter_views(store.dead_letter_queue@.push(letter)) =~= letter_views(
            store.dead_letter_queue@,
        ).push(letter@));
    }
    store.dead_letter_queue.push(letter);
}

/// Setting the cursor twice to one position leaves the store as setting it
/// once does.
pub proof fn lemma_advance_is_idempotent(store: StoreView, seq: i64)
    ensures
        store.advanced(seq).advanced(seq) == store.advanced(seq),
        store.advanced(seq).cursor == seq,
{
}

} // verus!
