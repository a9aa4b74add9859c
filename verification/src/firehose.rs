//! The envelope decoder: from the bytes of one message to a typed event.
//!
//! A message is two CBOR data items, one behind the other. The first is the
//! envelope header, a map that names the event type under the key `t`. The
//! second is the body, a DAG-CBOR map whose fields depend on that type.

use crate::cbor::{
    first_value, item_from_ipld, item_from_value, leading_item, sole_value, whole_item,
};
use crate::item::{is_text, lemma_pairs_view, trees_of, Item, Tree};
use crate::schema::{
    bytes_in, flag_in, integer_in, link_in, list_in, optional_integer_in, optional_link_in,
    required, spec_bytes_in, spec_flag_in, spec_integer_in, spec_link_in, spec_list_in,
    spec_optional_integer_in, spec_optional_link_in, spec_required, spec_text_in, text_in, Field,
    ShapeError,
};
use crate::text::{join, same_text};
use vstd::prelude::*;
use vstd::slice::slice_subrange;

verus! {

/// The envelope header of a message.
#[derive(Debug, PartialEq)]
pub struct Header {
    /// The event type, which decides how the body is read.
    pub type_: String,
    /// The operation code, where the header gives one.
    pub operation_code: Option<i64>,
}

/// The mathematical value of a [`Header`].
pub ghost struct HeaderView {
    pub type_: Seq<char>,
    pub operation_code: Option<i64>,
}

impl View for Header {
    type V = HeaderView;

    open spec fn view(&self) -> HeaderView {
        HeaderView { type_: self.type_@, operation_code: self.operation_code }
    }
}

/// Why a data item could not be had, or was not the record expected.
#[derive(Debug, PartialEq)]
pub enum Fault {
    /// The decoder refused the bytes; the text is its error.
    Malformed(String),
    /// The bytes are a data item of the wrong shape.
    Shape(ShapeError),
}

/// The mathematical value of a [`Fault`].
pub ghost enum FaultView {
    Malformed(Seq<char>),
    Shape(ShapeError),
}

impl View for Fault {
    type V = FaultView;

    open spec fn view(&self) -> FaultView {
        match self {
            Fault::Malformed(text) => FaultView::Malformed(text@),
            Fault::Shape(e) => FaultView::Shape(*e),
        }
    }
}

/// Why a message could not be decoded.
#[derive(Debug, PartialEq)]
pub enum Error {
    /// The envelope header could not be read.
    Header(Fault),
    /// The header was read, but the body is not an event of the type it names.
    Body(Fault),
    /// The header names an event type that this library does not know.
    UnknownTypeError(String),
}

/// The mathematical value of an [`Error`].
pub ghost enum ErrorView {
    Header(FaultView),
    Body(FaultView),
    UnknownTypeError(Seq<char>),
}

impl View for Error {
    type V = ErrorView;

    open spec fn view(&self) -> ErrorView {
        match self {
            Error::Header(f) => ErrorView::Header(f@),
            Error::Body(f) => ErrorView::Body(f@),
            Error::UnknownTypeError(t) => ErrorView::UnknownTypeError(t@),
        }
    }
}

impl ShapeError {
    /// The error in words.
    pub open spec fn spec_message(self) -> Seq<char> {
        match self {
            ShapeError::NotARecord => "expected a map"@,
            ShapeError::Missing(f) => "missing field "@ + f.spec_key(),
            ShapeError::Repeated(f) => "duplicate field "@ + f.spec_key(),
            ShapeError::Mismatch(f) => "invalid value for field "@ + f.spec_key(),
        }
    }

    /// The error in words.
    pub fn message(&self) -> (r: String)
        ensures
            r@ == self.spec_message(),
    {
        match self {
            ShapeError::NotARecord => String::from_str("expected a map"),
            ShapeError::Missing(f) => join("missing field ", f.key()),
            ShapeError::Repeated(f) => join("duplicate field ", f.key()),
            ShapeError::Mismatch(f) => join("invalid value for field ", f.key()),
        }
    }
}

impl FaultView {
    /// The fault in words.
    pub open spec fn message(self) -> Seq<char> {
        match self {
            FaultView::Malformed(text) => text,
            FaultView::Shape(e) => e.spec_message(),
        }
    }
}

impl Fault {
    /// The fault in words.
    pub fn message(&self) -> (r: String)
        ensures
            r@ == self@.message(),
    {
        match self {
            Fault::Malformed(text) => text.clone(),
            Fault::Shape(e) => e.message(),
        }
    }
}

impl ErrorView {
    /// The error in words.
    pub open spec fn message(self) -> Seq<char> {
        match self {
            ErrorView::Header(f) => "Header error: "@ + f.message(),
            ErrorView::Body(f) => "Body error: "@ + f.message(),
            ErrorView::UnknownTypeError(t) => "Unknown type error: "@ + t,
        }
    }
}

impl Error {
    /// The error in words: which part of the message failed, then why.
    pub fn message(&self) -> (r: String)
        ensures
            r@ == self@.message(),
    {
        match self {
            Error::Header(f) => {
                let why = f.message();
                join("Header error: ", why.as_str())
            },
            Error::Body(f) => {
                let why = f.message();
                join("Body error: ", why.as_str())
            },
            Error::UnknownTypeError(t) => join("Unknown type error: ", t.as_str()),
        }
    }
}

/// What an operation does to a record.
#[derive(Debug, Clone, Copy, PartialEq, Eq, Structural)]
pub enum SubscribeReposCommitOperationAction {
    Create,
    Update,
    Delete,
}

impl SubscribeReposCommitOperationAction {
    /// The word that stands for the action in an encoded operation.
    pub open spec fn spec_name(self) -> Seq<char> {
        match self {
            SubscribeReposCommitOperationAction::Create => "create"@,
            SubscribeReposCommitOperationAction::Update => "update"@,
            SubscribeReposCommitOperationAction::Delete => "delete"@,
        }
    }

    /// The word that stands for the action in an encoded operation.
    pub fn name(&self) -> (r: &'static str)
        ensures
            r@ == self.spec_name(),
    {
        match self {
            SubscribeReposCommitOperationAction::Create => "create",
            SubscribeReposCommitOperationAction::Update => "update",
            SubscribeReposCommitOperationAction::Delete => "delete",
        }
    }
}

/// One change of a record within a commit.
#[derive(Debug, PartialEq)]
pub struct SubscribeReposCommitOperation {
    /// The key of the record, which begins with its namespace.
    pub path: String,
    pub action: SubscribeReposCommitOperationAction,
    /// The hash of the record's new content; only a create or an update has one.
    pub cid: Option<cid::Cid>,
}

/// The mathematical value of a [`SubscribeReposCommitOperation`].
pub ghost struct OperationView {
    pub path: Seq<char>,
    pub action: SubscribeReposCommitOperationAction,
    pub cid: Option<cid::Cid>,
}

impl View for SubscribeReposCommitOperation {
    type V = OperationView;

    open spec fn view(&self) -> OperationView {
        OperationView { path: self.path@, action: self.action, cid: self.cid }
    }
}

/// The values of a sequence of operations, in order.
pub open spec fn operation_views(ops: Seq<SubscribeReposCommitOperation>) -> Seq<OperationView> {
    ops.map_values(|op: SubscribeReposCommitOperation| op@)
}

/// A batch of changes to one repository.
#[derive(Debug, PartialEq)]
pub struct SubscribeReposCommit {
    /// The changes, in the order in which the repository made them.
    pub operations: Vec<SubscribeReposCommitOperation>,
    pub repo: String,
    pub sequence: i64,
    /// The repository blocks that the commit carries, unread.
    pub raw_blocks: Vec<u8>,
    pub commit_ref: cid::Cid,
    pub previous_ref: Option<cid::Cid>,
    pub rebase: bool,
    pub too_big: bool,
    pub timestamp: String,
}

/// The mathematical value of a [`SubscribeReposCommit`].
pub ghost struct CommitView {
    pub operations: Seq<OperationView>,
    pub repo: Seq<char>,
    pub sequence: i64,
    pub raw_blocks: Seq<u8>,
    pub commit_ref: cid::Cid,
    pub previous_ref: Option<cid::Cid>,
    pub rebase: bool,
    pub too_big: bool,
    pub timestamp: Seq<char>,
}

impl View for SubscribeReposCommit {
    type V = CommitView;

    open spec fn view(&self) -> CommitView {
        CommitView {
            operations: operation_views(self.operations@),
            repo: self.repo@,
            sequence: self.sequence,
            raw_blocks: self.raw_blocks@,
            commit_ref: self.commit_ref,
            previous_ref: self.previous_ref,
            rebase: self.rebase,
            too_big: self.too_big,
            timestamp: self.timestamp@,
        }
    }
}

/// A repository took a new handle.
#[derive(Debug, PartialEq)]
pub struct SubscribeReposHandle {
    pub sequence: i64,
    pub repo: String,
    pub handle: String,
    pub timestamp: String,
}

/// The mathematical value of a [`SubscribeReposHandle`].
pub ghost struct HandleView {
    pub sequence: i64,
    pub repo: Seq<char>,
    pub handle: Seq<char>,
    pub timestamp: Seq<char>,
}

impl View for SubscribeReposHandle {
    type V = HandleView;

    open spec fn view(&self) -> HandleView {
        HandleView {
            sequence: self.sequence,
            repo: self.repo@,
            handle: self.handle@,
            timestamp: self.timestamp@,
        }
    }
}

/// A repository was deleted.
#[derive(Debug, PartialEq)]
pub struct SubscribeReposTombstone {
    pub sequence: i64,
    pub repo: String,
    pub timestamp: String,
}

/// The mathematical value of a [`SubscribeReposTombstone`].
pub ghost struct TombstoneView {
    pub sequence: i64,
    pub repo: Seq<char>,
    pub timestamp: Seq<char>,
}

impl View for SubscribeReposTombstone {
    type V = TombstoneView;

    open spec fn view(&self) -> TombstoneView {
        TombstoneView { sequence: self.sequence, repo: self.repo@, timestamp: self.timestamp@ }
    }
}

/// The state of an account changed. Only the position in the stream is kept.
#[derive(Debug, Clone, Copy, PartialEq, Eq, Structural)]
pub struct SubscribeReposAccount {
    pub sequence: i64,
}

/// The identity of an account changed. Only the position in the stream is kept.
#[derive(Debug, Clone, Copy, PartialEq, Eq, Structural)]
pub struct SubscribeReposIdentity {
    pub sequence: i64,
}

/// An event of the stream.
#[derive(Debug, PartialEq)]
pub enum SubscribeRepos {
    Commit(SubscribeReposCommit),
    Handle(SubscribeReposHandle),
    Tombstone(SubscribeReposTombstone),
    Account(SubscribeReposAccount),
    Identity(SubscribeReposIdentity),
}

/// The mathematical value of a [`SubscribeRepos`].
pub ghost enum EventView {
    Commit(CommitView),
    Handle(HandleView),
    Tombstone(TombstoneView),
    Account(SubscribeReposAccount),
    Identity(SubscribeReposIdentity),
}

impl EventView {
    /// The position of the event in the stream.
    pub open spec fn sequence(self) -> i64 {
        match self {
            EventView::Commit(commit) => commit.sequence,
            EventView::Handle(handle) => handle.sequence,
            EventView::Tombstone(tombstone) => tombstone.sequence,
            EventView::Account(account) => account.sequence,
            EventView::Identity(identity) => identity.sequence,
        }
    }
}

impl View for SubscribeRepos {
    type V = EventView;

    open spec fn view(&self) -> EventView {
        match self {
            SubscribeRepos::Commit(commit) => EventView::Commit(commit@),
            SubscribeRepos::Handle(handle) => EventView::Handle(handle@),
            SubscribeRepos::Tombstone(tombstone) => EventView::Tombstone(tombstone@),
            SubscribeRepos::Account(account) => EventView::Account(*account),
            SubscribeRepos::Identity(identity) => EventView::Identity(*identity),
        }
    }
}

impl SubscribeRepos {
    /// The position of the event in the stream.
    pub fn sequence(&self) -> (r: i64)
        ensures
            r == self@.sequence(),
    {
        match self {
            SubscribeRepos::Commit(commit) => commit.sequence,
            SubscribeRepos::Handle(handle) => handle.sequence,
            SubscribeRepos::Tombstone(tombstone) => tombstone.sequence,
            SubscribeRepos::Account(account) => account.sequence,
            SubscribeRepos::Identity(identity) => identity.sequence,
        }
    }
}

/// The event types that this library knows.
#[derive(Debug, Clone, Copy, PartialEq, Eq, Structural)]
pub enum Kind {
    Commit,
    Handle,
    Tombstone,
    Account,
    Identity,
}

impl Kind {
    /// The text by which an envelope header names the event type.
    pub open spec fn spec_tag(self) -> Seq<char> {
        match self {
            Kind::Commit => "#commit"@,
            Kind::Handle => "#handle"@,
            Kind::Tombstone => "#tombstone"@,
            Kind::Account => "#account"@,
            Kind::Identity => "#identity"@,
        }
    }

    /// The text by which an envelope header names the event type.
    pub fn tag(&self) -> (r: &'static str)
        ensures
            r@ == self.spec_tag(),
    {
        match self {
            Kind::Commit => "#commit",
            Kind::Handle => "#handle",
            Kind::Tombstone => "#tombstone",
            Kind::Account => "#account",
            Kind::Identity => "#identity",
        }
    }
}

/// The event type that the text `tag` names, if it names one.
pub open spec fn spec_kind_of(tag: Seq<char>) -> Option<Kind> {
    if tag == Kind::Commit.spec_tag() {
        Some(Kind::Commit)
    } else if tag == Kind::Handle.spec_tag() {
        Some(Kind::Handle)
    } else if tag == Kind::Tombstone.spec_tag() {
        Some(Kind::Tombstone)
    } else if tag == Kind::Account.spec_tag() {
        Some(Kind::Account)
    } else if tag == Kind::Identity.spec_tag() {
        Some(Kind::Identity)
    } else {
        None
    }
}

/// The event type that the text `tag` names, if it names one.
pub fn kind_of(tag: &str) -> (r: Option<Kind>)
    ensures
        r == spec_kind_of(tag@),
{
    if same_text(tag, Kind::Commit.tag()) {
        Some(Kind::Commit)
    } else if same_text(tag, Kind::Handle.tag()) {
        Some(Kind::Handle)
    } else if same_text(tag, Kind::Tombstone.tag()) {
        Some(Kind::Tombstone)
    } else if same_text(tag, Kind::Account.tag()) {
        Some(Kind::Account)
    } else if same_text(tag, Kind::Identity.tag()) {
        Some(Kind::Identity)
    } else {
        None
    }
}

/// The header that a data item stands for: a map with the event type as text
/// under `t` and, where there is one, the operation code as an integer of 64
/// bits under `op`. Entries under other keys are passed over.
pub open spec fn spec_header_of(tree: Tree) -> Result<HeaderView, ShapeError> {
    match tree {
        Tree::Pairs(pairs) => match spec_text_in(pairs, Field::EventType) {
            Err(e) => Err(e),
            Ok(type_) => match spec_optional_integer_in(pairs, Field::OperationCode) {
                Err(e) => Err(e),
                Ok(operation_code) => Ok(HeaderView { type_, operation_code }),
            },
        },
        _ => Err(ShapeError::NotARecord),
    }
}

/// Reads an envelope header out of a decoded data item.
pub fn header_of(item: &Item) -> (r: Result<Header, ShapeError>)
    ensures
        match r {
            Ok(header) => spec_header_of(item@) == Ok::<HeaderView, ShapeError>(header@),
            Err(e) => spec_header_of(item@) == Err::<HeaderView, ShapeError>(e),
        },
{
    match item {
        Item::Pairs(entries) => {
            proof {
                lemma_pairs_view(*entries);
            }
            let type_ = match text_in(entries, Field::EventType) {
                Err(e) => { return Err(e); },
                Ok(text) => text,
            };
            match optional_integer_in(entries, Field::OperationCode) {
                Err(e) => Err(e),
                Ok(operation_code) => Ok(Header { type_, operation_code }),
            }
        },
        _ => Err(ShapeError::NotARecord),
    }
}

/// The action that a data item names.
pub open spec fn spec_action_of(tree: Tree) -> Result<
    SubscribeReposCommitOperationAction,
    ShapeError,
> {
    if tree == Tree::Text(SubscribeReposCommitOperationAction::Create.spec_name()) {
        Ok(SubscribeReposCommitOperationAction::Create)
    } else if tree == Tree::Text(SubscribeReposCommitOperationAction::Update.spec_name()) {
        Ok(SubscribeReposCommitOperationAction::Update)
    } else if tree == Tree::Text(SubscribeReposCommitOperationAction::Delete.spec_name()) {
        Ok(SubscribeReposCommitOperationAction::Delete)
    } else {
        Err(ShapeError::Mismatch(Field::Action))
    }
}

/// Reads the action that a data item names.
pub fn action_of(item: &Item) -> (r: Result<SubscribeReposCommitOperationAction, ShapeError>)
    ensures
        r == spec_action_of(item@),
{
    if is_text(item, SubscribeReposCommitOperationAction::Create.name()) {
        Ok(SubscribeReposCommitOperationAction::Create)
    } else if is_text(item, SubscribeReposCommitOperationAction::Update.name()) {
        Ok(SubscribeReposCommitOperationAction::Update)
    } else if is_text(item, SubscribeReposCommitOperationAction::Delete.name()) {
        Ok(SubscribeReposCommitOperationAction::Delete)
    } else {
        Err(ShapeError::Mismatch(Field::Action))
    }
}

/// The operation that a data item stands for: a map with `path`, `action` and,
/// where there is one, `cid`. The fields are read in that order, and the first
/// fault is the one reported.
pub open spec fn spec_operation_of(tree: Tree) -> Result<OperationView, ShapeError> {
    match tree {
        Tree::Pairs(pairs) => match spec_text_in(pairs, Field::Path) {
            Err(e) => Err(e),
            Ok(path) => match spec_required(pairs, Field::Action) {
                Err(e) => Err(e),
                Ok(named) => match spec_action_of(named) {
                    Err(e) => Err(e),
                    Ok(action) => match spec_optional_link_in(pairs, Field::Cid) {
                        Err(e) => Err(e),
                        Ok(cid) => Ok(OperationView { path, action, cid }),
                    },
                },
            },
        },
        _ => Err(ShapeError::Mismatch(Field::Ops)),
    }
}

/// Reads one operation out of a decoded data item.
pub fn operation_of(item: &Item) -> (r: Result<SubscribeReposCommitOperation, ShapeError>)
    ensures
        match r {
            Ok(op) => spec_operation_of(item@) == Ok::<OperationView, ShapeError>(op@),
            Err(e) => spec_operation_of(item@) == Err::<OperationView, ShapeError>(e),
        },
{
    match item {
        Item::Pairs(entries) => {
            proof {
                lemma_pairs_view(*entries);
            }
            let path = match text_in(entries, Field::Path) {
                Err(e) => { return Err(e); },
                Ok(text) => text,
            };
            let named = match required(entries, Field::Action) {
                Err(e) => { return Err(e); },
                Ok(item) => item,
            };
            let action = match action_of(named) {
                Err(e) => { return Err(e); },
                Ok(action) => action,
            };
            match optional_link_in(entries, Field::Cid) {
                Err(e) => Err(e),
                Ok(cid) => Ok(SubscribeReposCommitOperation { path, action, cid }),
            }
        },
        _ => Err(ShapeError::Mismatch(Field::Ops)),
    }
}

/// The operations that a list of data items stands for, in order; where some
/// items are no operations, the fault of the first of them.
pub open spec fn spec_operations_of(items: Seq<Tree>) -> Result<Seq<OperationView>, ShapeError>
    decreases items.len(),
{
    if items.len() == 0 {
        Ok(Seq::empty())
    } else {
        match spec_operations_of(items.drop_last()) {
            Err(e) => Err(e),
            Ok(ops) => match spec_operation_of(items.last()) {
                Err(e) => Err(e),
                Ok(op) => Ok(ops.push(op)),
            },
        }
    }
}

/// Reads the operations of a commit out of a list of decoded data items.
pub fn operations_of(items: &Vec<Item>) -> (r: Result<
    Vec<SubscribeReposCommitOperation>,
    ShapeError,
>)
    ensures
        match r {
            Ok(ops) => spec_operations_of(trees_of(items@)) == Ok::<
                Seq<OperationView>,
                ShapeError,
            >(operation_views(ops@)),
            Err(e) => spec_operations_of(trees_of(items@)) == Err::<
                Seq<OperationView>,
                ShapeError,
            >(e),
        },
{
    let ghost trees = trees_of(items@);
    let mut ops: Vec<SubscribeReposCommitOperation> = Vec::new();
    let mut i: usize = 0;
    proof {
        assert(trees.take(0) =~= Seq::<Tree>::empty());
        assert(operation_views(ops@) =~= Seq::<OperationView>::empty());
    }
    while i < items.len()
        invariant
            i <= items.len(),
            trees == trees_of(items@),
            spec_operations_of(trees.take(i as int)) == Ok::<Seq<OperationView>, ShapeError>(
                operation_views(ops@),
            ),
        decreases items.len() - i,
    {
        proof {
            assert(trees.take(i + 1).drop_last() =~= trees.take(i as int));
            assert(trees.take(i + 1).last() == items[i as int]@);
        }
        match operation_of(&items[i]) {
            Err(e) => {
                proof {
                    lemma_operations_fault_stays(trees, i + 1);
                    assert(trees.take(trees.len() as int) =~= trees);
                }
                return Err(e);
            },
            Ok(op) => {
                proof {
                    assert(operation_views(ops@.push(op)) =~= operation_views(ops@).push(op@));
                }
                ops.push(op);
            },
        }
        i += 1;
    }
    proof {
        assert(trees.take(i as int) =~= trees);
    }
    Ok(ops)
}

/// A fault among the first `n` items of a list is the fault of the whole list.
pub proof fn lemma_operations_fault_stays(items: Seq<Tree>, n: int)
    requires
        0 <= n <= items.len(),
        spec_operations_of(items.take(n)) is Err,
    ensures
        spec_operations_of(items) == spec_operations_of(items.take(n)),
    decreases items.len() - n,
{
    if n < items.len() {
        assert(items.take(n + 1).drop_last() =~= items.take(n));
        lemma_operations_fault_stays(items, n + 1);
    } else {
        assert(items.take(n) =~= items);
    }
}

/// The commit that a data item stands for: a map with `ops`, `repo`, `seq`,
/// `blocks`, `commit`, `rebase`, `tooBig`, `time` and, where there is one,
/// `prev`. The fields are read in the order of [`CommitView`], and the first
/// fault is the one reported.
pub open spec fn spec_commit_of(tree: Tree) -> Result<CommitView, ShapeError> {
    match tree {
        Tree::Pairs(pairs) => match spec_list_in(pairs, Field::Ops) {
            Err(e) => Err(e),
            Ok(items) => match spec_operations_of(items) {
                Err(e) => Err(e),
                Ok(operations) => match spec_text_in(pairs, Field::Repo) {
                    Err(e) => Err(e),
                    Ok(repo) => match spec_integer_in(pairs, Field::Sequence) {
                        Err(e) => Err(e),
                        Ok(sequence) => match spec_bytes_in(pairs, Field::Blocks) {
                            Err(e) => Err(e),
                            Ok(raw_blocks) => match spec_link_in(pairs, Field::Commit) {
                                Err(e) => Err(e),
                                Ok(commit_ref) => match spec_optional_link_in(pairs, Field::Prev) {
                                    Err(e) => Err(e),
                                    Ok(previous_ref) => match spec_flag_in(pairs, Field::Rebase) {
                                        Err(e) => Err(e),
                                        Ok(rebase) => match spec_flag_in(pairs, Field::TooBig) {
                                            Err(e) => Err(e),
                                            Ok(too_big) => match spec_text_in(pairs, Field::Time) {
                                                Err(e) => Err(e),
                                                Ok(timestamp) => Ok(
                                                    CommitView {
                                                        operations,
                                                        repo,
                                                        sequence,
                                                        raw_blocks,
                                                        commit_ref,
                                                        previous_ref,
                                                        rebase,
                                                        too_big,
                                                        timestamp,
                                                    },
                                                ),
                                            },
                                        },
                                    },
                                },
                            },
                        },
                    },
                },
            },
        },
        _ => Err(ShapeError::NotARecord),
    }
}

/// Reads a commit out of a decoded data item.
pub fn commit_of(item: &Item) -> (r: Result<SubscribeReposCommit, ShapeError>)
    ensures
        match r {
            Ok(commit) => spec_commit_of(item@) == Ok::<CommitView, ShapeError>(commit@),
            Err(e) => spec_commit_of(item@) == Err::<CommitView, ShapeError>(e),
        },
{
    match item {
        Item::Pairs(entries) => {
            proof {
                lemma_pairs_view(*entries);
            }
            let items = match list_in(entries, Field::Ops) {
                Err(e) => { return Err(e); },
                Ok(items) => items,
            };
            let operations = match operations_of(items) {
                Err(e) => { return Err(e); },
                Ok(operations) => operations,
            };
            let repo = match text_in(entries, Field::Repo) {
                Err(e) => { return Err(e); },
                Ok(repo) => repo,
            };
            let sequence = match integer_in(entries, Field::Sequence) {
                Err(e) => { return Err(e); },
                Ok(sequence) => sequence,
            };
            let raw_blocks = match bytes_in(entries, Field::Blocks) {
                Err(e) => { return Err(e); },
                Ok(raw_blocks) => raw_blocks,
            };
            let commit_ref = match link_in(entries, Field::Commit) {
                Err(e) => { return Err(e); },
                Ok(commit_ref) => commit_ref,
            };
            let previous_ref = match optional_link_in(entries, Field::Prev) {
                Err(e) => { return Err(e); },
                Ok(previous_ref) => previous_ref,
            };
            let rebase = match flag_in(entries, Field::Rebase) {
                Err(e) => { return Err(e); },
                Ok(rebase) => rebase,
            };
            let too_big = match flag_in(entries, Field::TooBig) {
                Err(e) => { return Err(e); },
                Ok(too_big) => too_big,
            };
            match text_in(entries, Field::Time) {
                Err(e) => Err(e),
                Ok(timestamp) => Ok(
                    SubscribeReposCommit {
                        operations,
                        repo,
                        sequence,
                        raw_blocks,
                        commit_ref,
                        previous_ref,
                        rebase,
                        too_big,
                        timestamp,
                    },
                ),
            }
        },
        _ => Err(ShapeError::NotARecord),
    }
}

/// The handle event that a data item stands for: a map with `seq`, `did`,
/// `handle` and `time`, read in that order.
pub open spec fn spec_handle_of(tree: Tree) -> Result<HandleView, ShapeError> {
    match tree {
        Tree::Pairs(pairs) => match spec_integer_in(pairs, Field::Sequence) {
            Err(e) => Err(e),
            Ok(sequence) => match spec_text_in(pairs, Field::Did) {
                Err(e) => Err(e),
                Ok(repo) => match spec_text_in(pairs, Field::Handle) {
                    Err(e) => Err(e),
                    Ok(handle) => match spec_text_in(pairs, Field::Time) {
                        Err(e) => Err(e),
                        Ok(timestamp) => Ok(HandleView { sequence, repo, handle, timestamp }),
                    },
                },
            },
        },
        _ => Err(ShapeError::NotARecord),
    }
}

/// Reads a handle event out of a decoded data item.
pub fn handle_of(item: &Item) -> (r: Result<SubscribeReposHandle, ShapeError>)
    ensures
        match r {
            Ok(handle) => spec_handle_of(item@) == Ok::<HandleView, ShapeError>(handle@),
            Err(e) => spec_handle_of(item@) == Err::<HandleView, ShapeError>(e),
        },
{
    match item {
        Item::Pairs(entries) => {
            proof {
                lemma_pairs_view(*entries);
            }
            let sequence = match integer_in(entries, Field::Sequence) {
                Err(e) => { return Err(e); },
                Ok(sequence) => sequence,
            };
            let repo = match text_in(entries, Field::Did) {
                Err(e) => { return Err(e); },
                Ok(repo) => repo,
            };
            let handle = match text_in(entries, Field::Handle) {
                Err(e) => { return Err(e); },
                Ok(handle) => handle,
            };
            match text_in(entries, Field::Time) {
                Err(e) => Err(e),
                Ok(timestamp) => Ok(SubscribeReposHandle { sequence, repo, handle, timestamp }),
            }
        },
        _ => Err(ShapeError::NotARecord),
    }
}

/// The tombstone that a data item stands for: a map with `seq`, `did` and
/// `time`, read in that order.
pub open spec fn spec_tombstone_of(tree: Tree) -> Result<TombstoneView, ShapeError> {
    match tree {
        Tree::Pairs(pairs) => match spec_integer_in(pairs, Field::Sequence) {
            Err(e) => Err(e),
            Ok(sequence) => match spec_text_in(pairs, Field::Did) {
                Err(e) => Err(e),
                Ok(repo) => match spec_text_in(pairs, Field::Time) {
                    Err(e) => Err(e),
                    Ok(timestamp) => Ok(TombstoneView { sequence, repo, timestamp }),
                },
            },
        },
        _ => Err(ShapeError::NotARecord),
    }
}

/// Reads a tombstone out of a decoded data item.
pub fn tombstone_of(item: &Item) -> (r: Result<SubscribeReposTombstone, ShapeError>)
    ensures
        match r {
            Ok(tombstone) => spec_tombstone_of(item@) == Ok::<TombstoneView, ShapeError>(
                tombstone@,
            ),
            Err(e) => spec_tombstone_of(item@) == Err::<TombstoneView, ShapeError>(e),
        },
{
    match item {
        Item::Pairs(entries) => {
            proof {
                lemma_pairs_view(*entries);
            }
            let sequence = match integer_in(entries, Field::Sequence) {
                Err(e) => { return Err(e); },
                Ok(sequence) => sequence,
            };
            let repo = match text_in(entries, Field::Did) {
                Err(e) => { return Err(e); },
                Ok(repo) => repo,
            };
            match text_in(entries, Field::Time) {
                Err(e) => Err(e),
                Ok(timestamp) => Ok(SubscribeReposTombstone { sequence, repo, timestamp }),
            }
        },
        _ => Err(ShapeError::NotARecord),
    }
}

/// The position in the stream that a data item gives: the `seq` of a map.
pub open spec fn spec_sequence_of(tree: Tree) -> Result<i64, ShapeError> {
    match tree {
        Tree::Pairs(pairs) => spec_integer_in(pairs, Field::Sequence),
        _ => Err(ShapeError::NotARecord),
    }
}

/// Reads the position in the stream out of a decoded data item.
pub fn sequence_of(item: &Item) -> (r: Result<i64, ShapeError>)
    ensures
        r == spec_sequence_of(item@),
{
    match item {
        Item::Pairs(entries) => {
            proof {
                lemma_pairs_view(*entries);
            }
            integer_in(entries, Field::Sequence)
        },
        _ => Err(ShapeError::NotARecord),
    }
}

/// The event of type `kind` that a data item stands for.
pub open spec fn spec_event_of(kind: Kind, tree: Tree) -> Result<EventView, ShapeError> {
    match kind {
        Kind::Commit => match spec_commit_of(tree) {
            Err(e) => Err(e),
            Ok(commit) => Ok(EventView::Commit(commit)),
        },
        Kind::Handle => match spec_handle_of(tree) {
            Err(e) => Err(e),
            Ok(handle) => Ok(EventView::Handle(handle)),
        },
        Kind::Tombstone => match spec_tombstone_of(tree) {
            Err(e) => Err(e),
            Ok(tombstone) => Ok(EventView::Tombstone(tombstone)),
        },
        Kind::Account => match spec_sequence_of(tree) {
            Err(e) => Err(e),
            Ok(sequence) => Ok(EventView::Account(SubscribeReposAccount { sequence })),
        },
        Kind::Identity => match spec_sequence_of(tree) {
            Err(e) => Err(e),
            Ok(sequence) => Ok(EventView::Identity(SubscribeReposIdentity { sequence })),
        },
    }
}

/// Reads the event of type `kind` out of a decoded data item.
pub fn event_of(kind: Kind, item: &Item) -> (r: Result<SubscribeRepos, ShapeError>)
    ensures
        match r {
            Ok(event) => spec_event_of(kind, item@) == Ok::<EventView, ShapeError>(event@),
            Err(e) => spec_event_of(kind, item@) == Err::<EventView, ShapeError>(e),
        },
{
    match kind {
        Kind::Commit => match commit_of(item) {
            Err(e) => Err(e),
            Ok(commit) => Ok(SubscribeRepos::Commit(commit)),
        },
        Kind::Handle => match handle_of(item) {
            Err(e) => Err(e),
            Ok(handle) => Ok(SubscribeRepos::Handle(handle)),
        },
        Kind::Tombstone => match tombstone_of(item) {
            Err(e) => Err(e),
            Ok(tombstone) => Ok(SubscribeRepos::Tombstone(tombstone)),
        },
        Kind::Account => match sequence_of(item) {
            Err(e) => Err(e),
            Ok(sequence) => Ok(SubscribeRepos::Account(SubscribeReposAccount { sequence })),
        },
        Kind::Identity => match sequence_of(item) {
            Err(e) => Err(e),
            Ok(sequence) => Ok(SubscribeRepos::Identity(SubscribeReposIdentity { sequence })),
        },
    }
}

/// What the body of a message gives, once its header is known: the event of
/// the type that the header names, read from the bytes `rest` behind the
/// header. An unknown type is reported before the body is looked at.
pub open spec fn spec_body_of(header: HeaderView, rest: Seq<u8>) -> Result<EventView, ErrorView> {
    match spec_kind_of(header.type_) {
        None => Err(ErrorView::UnknownTypeError(header.type_)),
        Some(kind) => match whole_item(rest) {
            Err(text) => Err(ErrorView::Body(FaultView::Malformed(text))),
            Ok(tree) => match spec_event_of(kind, tree) {
                Err(e) => Err(ErrorView::Body(FaultView::Shape(e))),
                Ok(event) => Ok(event),
            },
        },
    }
}

/// What a message decodes to: its header and its event, or the reason why it
/// has none.
pub open spec fn decoded(data: Seq<u8>) -> Result<(HeaderView, EventView), ErrorView> {
    match leading_item(data) {
        Err(text) => Err(ErrorView::Header(FaultView::Malformed(text))),
        Ok((tree, used)) => match spec_header_of(tree) {
            Err(e) => Err(ErrorView::Header(FaultView::Shape(e))),
            Ok(header) => match spec_body_of(header, data.skip(used as int)) {
                Err(e) => Err(e),
                Ok(event) => Ok((header, event)),
            },
        },
    }
}

/// Decodes the body of a message whose header is known, from the bytes behind
/// the header.
pub fn body_of(header: &Header, rest: &[u8]) -> (r: Result<SubscribeRepos, Error>)
    ensures
        match r {
            Ok(event) => spec_body_of(header@, rest@) == Ok::<EventView, ErrorView>(event@),
            Err(e) => spec_body_of(header@, rest@) == Err::<EventView, ErrorView>(e@),
        },
{
    let kind = match kind_of(header.type_.as_str()) {
        None => { return Err(Error::UnknownTypeError(header.type_.clone())); },
        Some(kind) => kind,
    };
    let item = match sole_value(rest) {
        Err(text) => { return Err(Error::Body(Fault::Malformed(text))); },
        Ok(value) => item_from_ipld(value),
    };
    match event_of(kind, &item) {
        Err(e) => Err(Error::Body(Fault::Shape(e))),
        Ok(event) => Ok(event),
    }
}

/// Decodes one message of the stream into its header and its event.
pub fn read(data: &[u8]) -> (r: Result<(Header, SubscribeRepos), Error>)
    ensures
        match r {
            Ok((header, event)) => decoded(data@) == Ok::<(HeaderView, EventView), ErrorView>(
                (header@, event@),
            ),
            Err(e) => decoded(data@) == Err::<(HeaderView, EventView), ErrorView>(e@),
        },
{
    let (value, used) = match first_value(data) {
        Err(text) => { return Err(Error::Header(Fault::Malformed(text))); },
        Ok(found) => found,
    };
    let item = item_from_value(value);
    let header = match header_of(&item) {
        Err(e) => { return Err(Error::Header(Fault::Shape(e))); },
        Ok(header) => header,
    };
    let rest = slice_subrange(data, used, data.len());
    assert(rest@ =~= data@.skip(used as int));
    match body_of(&header, rest) {
        Err(e) => Err(e),
        Ok(event) => Ok((header, event)),
    }
}

/// A message whose header names an event type that is not known decodes to
/// [`Error::UnknownTypeError`] with that name, whatever stands behind the
/// header.
pub proof fn lemma_unknown_type_is_reported(data: Seq<u8>)
    ensures
        leading_item(data) matches Ok((tree, used)) ==> (spec_header_of(tree) matches Ok(header)
            ==> (spec_kind_of(header.type_) is None ==> decoded(data) == Err::<
            (HeaderView, EventView),
            ErrorView,
        >(ErrorView::UnknownTypeError(header.type_)))),
{
}

} // verus!
