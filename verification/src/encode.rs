//! The encoding of headers and events as data items, and the proof that the
//! decoder undoes it.
//!
//! The encoding is ghost: it says, as a mathematical value, which data item
//! stands for an event. Nothing here produces bytes.

use crate::cbor::{leading_item, whole_item};
use crate::firehose::{
    decoded, spec_action_of, spec_commit_of, spec_event_of, spec_handle_of, spec_header_of, spec_kind_of,
    spec_operation_of, spec_operations_of, spec_sequence_of, spec_tombstone_of, CommitView,
    EventView, HandleView, HeaderView, Kind, OperationView, SubscribeReposCommitOperationAction,
    TombstoneView,
};
use crate::item::{field, keyed, Found, Tree};
use crate::schema::{Field, ShapeError};
use vstd::prelude::*;

verus! {

/// The entry of a map that holds `value` under the key of the field `f`.
pub open spec fn entry(f: Field, value: Tree) -> (Tree, Tree) {
    (Tree::Text(f.spec_key()), value)
}

/// The data item of a link that may be missing.
pub open spec fn link_or_null(link: Option<cid::Cid>) -> Tree {
    match link {
        Some(c) => Tree::Link(c),
        None => Tree::Null,
    }
}

/// The data item that stands for a header.
pub open spec fn encode_header(header: HeaderView) -> Tree {
    Tree::Pairs(
        seq![
            entry(Field::EventType, Tree::Text(header.type_)),
            entry(
                Field::OperationCode,
                match header.operation_code {
                    Some(code) => Tree::Integer(code as int),
                    None => Tree::Null,
                },
            ),
        ],
    )
}

/// The data item that stands for an operation.
pub open spec fn encode_operation(op: OperationView) -> Tree {
    Tree::Pairs(
        seq![
            entry(Field::Path, Tree::Text(op.path)),
            entry(Field::Action, Tree::Text(op.action.spec_name())),
            entry(Field::Cid, link_or_null(op.cid)),
        ],
    )
}

/// The data items that stand for a sequence of operations.
pub open spec fn encode_operations(ops: Seq<OperationView>) -> Seq<Tree> {
    ops.map_values(|op: OperationView| encode_operation(op))
}

/// The data item that stands for a commit.
pub open spec fn encode_commit(commit: CommitView) -> Tree {
    Tree::Pairs(
        seq![
            entry(Field::Ops, Tree::List(encode_operations(commit.operations))),
            entry(Field::Repo, Tree::Text(commit.repo)),
            entry(Field::Sequence, Tree::Integer(commit.sequence as int)),
            entry(Field::Blocks, Tree::Bytes(commit.raw_blocks)),
            entry(Field::Commit, Tree::Link(commit.commit_ref)),
            entry(Field::Prev, link_or_null(commit.previous_ref)),
            entry(Field::Rebase, Tree::Bool(commit.rebase)),
            entry(Field::TooBig, Tree::Bool(commit.too_big)),
            entry(Field::Time, Tree::Text(commit.timestamp)),
        ],
    )
}

/// The data item that stands for a handle event.
pub open spec fn encode_handle(handle: HandleView) -> Tree {
    Tree::Pairs(
        seq![
            entry(Field::Sequence, Tree::Integer(handle.sequence as int)),
            entry(Field::Did, Tree::Text(handle.repo)),
            entry(Field::Handle, Tree::Text(handle.handle)),
            entry(Field::Time, Tree::Text(handle.timestamp)),
        ],
    )
}

/// The data item that stands for a tombstone.
pub open spec fn encode_tombstone(tombstone: TombstoneView) -> Tree {
    Tree::Pairs(
        seq![
            entry(Field::Sequence, Tree::Integer(tombstone.sequence as int)),
            entry(Field::Did, Tree::Text(tombstone.repo)),
            entry(Field::Time, Tree::Text(tombstone.timestamp)),
        ],
    )
}

/// The data item that stands for an event of which only the position is kept.
pub open spec fn encode_sequence(sequence: i64) -> Tree {
    Tree::Pairs(seq![entry(Field::Sequence, Tree::Integer(sequence as int))])
}

/// The type of an event.
pub open spec fn kind_of_event(event: EventView) -> Kind {
    match event {
        EventView::Commit(_) => Kind::Commit,
        EventView::Handle(_) => Kind::Handle,
        EventView::Tombstone(_) => Kind::Tombstone,
        EventView::Account(_) => Kind::Account,
        EventView::Identity(_) => Kind::Identity,
    }
}

/// The data item that stands for the body of an event.
pub open spec fn encode_event(event: EventView) -> Tree {
    match event {
        EventView::Commit(commit) => encode_commit(commit),
        EventView::Handle(handle) => encode_handle(handle),
        EventView::Tombstone(tombstone) => encode_tombstone(tombstone),
        EventView::Account(account) => encode_sequence(account.sequence),
        EventView::Identity(identity) => encode_sequence(identity.sequence),
    }
}

/// Two fields have the same key only where they are the same field.
pub proof fn lemma_keys_are_distinct(f: Field, g: Field)
    ensures
        f.spec_key() == g.spec_key() <==> f == g,
{
    reveal_strlit("t");
    reveal_strlit("op");
    reveal_strlit("seq");
    reveal_strlit("repo");
    reveal_strlit("ops");
    reveal_strlit("blocks");
    reveal_strlit("commit");
    reveal_strlit("prev");
    reveal_strlit("rebase");
    reveal_strlit("tooBig");
    reveal_strlit("time");
    reveal_strlit("did");
    reveal_strlit("handle");
    reveal_strlit("path");
    reveal_strlit("action");
    reveal_strlit("cid");
    let a = f.spec_key();
    let b = g.spec_key();
    if a == b {
        assert(a.len() == b.len());
        assert(a[0] == b[0]);
        if a.len() > 1 {
            assert(a[1] == b[1]);
        }
        if a.len() > 2 {
            assert(a[2] == b[2]);
        }
    }
}

/// Every event type has a tag of its own, and the tag names the type.
pub proof fn lemma_tags_name_their_kind(kind: Kind)
    ensures
        spec_kind_of(kind.spec_tag()) == Some(kind),
{
    reveal_strlit("#commit");
    reveal_strlit("#handle");
    reveal_strlit("#tombstone");
    reveal_strlit("#account");
    reveal_strlit("#identity");
    let tag = kind.spec_tag();
    assert(tag.len() > 1);
    assert("#commit"@[1] == 'c' && "#handle"@[1] == 'h' && "#tombstone"@[1] == 't'
        && "#account"@[1] == 'a' && "#identity"@[1] == 'i');
}

/// Every action has a word of its own, and the word names the action.
pub proof fn lemma_words_name_their_action(action: SubscribeReposCommitOperationAction)
    ensures
        spec_action_of(Tree::Text(action.spec_name())) == Ok::<
            SubscribeReposCommitOperationAction,
            ShapeError,
        >(action),
{
    reveal_strlit("create");
    reveal_strlit("update");
    reveal_strlit("delete");
    assert("create"@[0] == 'c' && "update"@[0] == 'u' && "delete"@[0] == 'd');
}

/// Where no entry has the key, the map holds nothing under it.
pub proof fn lemma_field_absent(pairs: Seq<(Tree, Tree)>, key: Seq<char>)
    requires
        forall|j: int| 0 <= j < pairs.len() ==> (#[trigger] pairs[j]).0 != Tree::Text(key),
    ensures
        pairs.filter(keyed(key)).len() == 0,
        field(pairs, key) == Found::Absent,
    decreases pairs.len(),
{
    reveal(Seq::filter);
    if pairs.len() > 0 {
        lemma_field_absent(pairs.drop_last(), key);
    }
}

/// Where exactly the entry at `i` has the key, the map holds that entry's
/// value under it.
pub proof fn lemma_field_once(pairs: Seq<(Tree, Tree)>, i: int, key: Seq<char>)
    requires
        0 <= i < pairs.len(),
        pairs[i].0 == Tree::Text(key),
        forall|j: int| 0 <= j < pairs.len() && j != i ==> (#[trigger] pairs[j]).0 != Tree::Text(key),
    ensures
        pairs.filter(keyed(key)) == seq![pairs[i]],
        field(pairs, key) == Found::Once(pairs[i].1),
    decreases pairs.len(),
{
    reveal(Seq::filter);
    let rest = pairs.drop_last();
    if i == pairs.len() - 1 {
        lemma_field_absent(rest, key);
        assert(pairs.filter(keyed(key)) =~= seq![pairs[i]]);
    } else {
        assert(rest[i] == pairs[i]);
        lemma_field_once(rest, i, key);
        assert(!keyed(key)(pairs.last()));
    }
}

/// In a map that holds each of the fields `fields` once, in this order, and
/// nothing else, the field at `i` is found with its value.
pub proof fn lemma_field_of_record(pairs: Seq<(Tree, Tree)>, fields: Seq<Field>, i: int)
    requires
        pairs.len() == fields.len(),
        0 <= i < fields.len(),
        forall|j: int| 0 <= j < fields.len() ==> (#[trigger] pairs[j]).0 == Tree::Text(
            fields[j].spec_key(),
        ),
        forall|j: int, k: int| 0 <= j < k < fields.len() ==> fields[j] != fields[k],
    ensures
        field(pairs, fields[i].spec_key()) == Found::Once(pairs[i].1),
{
    assert forall|j: int| 0 <= j < pairs.len() && j != i implies (#[trigger] pairs[j]).0
        != Tree::Text(fields[i].spec_key()) by {
        lemma_keys_are_distinct(fields[j], fields[i]);
    }
    lemma_field_once(pairs, i, fields[i].spec_key());
}

/// Decoding the encoding of a header gives the header.
pub proof fn lemma_header_round_trip(header: HeaderView)
    ensures
        spec_header_of(encode_header(header)) == Ok::<HeaderView, ShapeError>(header),
{
    let pairs = encode_header(header)->Pairs_0;
    let fields = seq![Field::EventType, Field::OperationCode];
    lemma_field_of_record(pairs, fields, 0);
    lemma_field_of_record(pairs, fields, 1);
}

/// Decoding the encoding of an operation gives the operation.
pub proof fn lemma_operation_round_trip(op: OperationView)
    ensures
        spec_operation_of(encode_operation(op)) == Ok::<OperationView, ShapeError>(op),
{
    let pairs = encode_operation(op)->Pairs_0;
    let fields = seq![Field::Path, Field::Action, Field::Cid];
    lemma_field_of_record(pairs, fields, 0);
    lemma_field_of_record(pairs, fields, 1);
    lemma_field_of_record(pairs, fields, 2);
    lemma_words_name_their_action(op.action);
}

/// Decoding the encodings of a sequence of operations gives the operations,
/// in their order.
pub proof fn lemma_operations_round_trip(ops: Seq<OperationView>)
    ensures
        spec_operations_of(encode_operations(ops)) == Ok::<Seq<OperationView>, ShapeError>(ops),
    decreases ops.len(),
{
    let items = encode_operations(ops);
    if ops.len() == 0 {
        assert(ops =~= Seq::<OperationView>::empty());
    } else {
        assert(items.drop_last() =~= encode_operations(ops.drop_last()));
        lemma_operations_round_trip(ops.drop_last());
        lemma_operation_round_trip(ops.last());
        assert(ops.drop_last().push(ops.last()) =~= ops);
    }
}

/// Decoding the encoding of a commit gives the commit.
pub proof fn lemma_commit_round_trip(commit: CommitView)
    ensures
        spec_commit_of(encode_commit(commit)) == Ok::<CommitView, ShapeError>(commit),
{
    let pairs = encode_commit(commit)->Pairs_0;
    let fields = seq![
        Field::Ops,
        Field::Repo,
        Field::Sequence,
        Field::Blocks,
        Field::Commit,
        Field::Prev,
        Field::Rebase,
        Field::TooBig,
        Field::Time,
    ];
    lemma_field_of_record(pairs, fields, 0);
    lemma_field_of_record(pairs, fields, 1);
    lemma_field_of_record(pairs, fields, 2);
    lemma_field_of_record(pairs, fields, 3);
    lemma_field_of_record(pairs, fields, 4);
    lemma_field_of_record(pairs, fields, 5);
    lemma_field_of_record(pairs, fields, 6);
    lemma_field_of_record(pairs, fields, 7);
    lemma_field_of_record(pairs, fields, 8);
    lemma_operations_round_trip(commit.operations);
}

/// Decoding the encoding of a handle event gives the event.
pub proof fn lemma_handle_round_trip(handle: HandleView)
    ensures
        spec_handle_of(encode_handle(handle)) == Ok::<HandleView, ShapeError>(handle),
{
    let pairs = encode_handle(handle)->Pairs_0;
    let fields = seq![Field::Sequence, Field::Did, Field::Handle, Field::Time];
    lemma_field_of_record(pairs, fields, 0);
    lemma_field_of_record(pairs, fields, 1);
    lemma_field_of_record(pairs, fields, 2);
    lemma_field_of_record(pairs, fields, 3);
}

/// Decoding the encoding of a tombstone gives the tombstone.
pub proof fn lemma_tombstone_round_trip(tombstone: TombstoneView)
    ensures
        spec_tombstone_of(encode_tombstone(tombstone)) == Ok::<TombstoneView, ShapeError>(
            tombstone,
        ),
{
    let pairs = encode_tombstone(tombstone)->Pairs_0;
    let fields = seq![Field::Sequence, Field::Did, Field::Time];
    lemma_field_of_record(pairs, fields, 0);
    lemma_field_of_record(pairs, fields, 1);
    lemma_field_of_record(pairs, fields, 2);
}

/// Decoding the encoding of a position gives the position.
pub proof fn lemma_sequence_round_trip(sequence: i64)
    ensures
        spec_sequence_of(encode_sequence(sequence)) == Ok::<i64, ShapeError>(sequence),
{
    let pairs = encode_sequence(sequence)->Pairs_0;
    lemma_field_of_record(pairs, seq![Field::Sequence], 0);
}

/// For every event of every type: the tag of its type names the type, and
/// decoding the encoding of the event as that type gives the event back,
/// field for field.
pub proof fn lemma_event_round_trip(event: EventView)
    ensures
        spec_kind_of(kind_of_event(event).spec_tag()) == Some(kind_of_event(event)),
        spec_event_of(kind_of_event(event), encode_event(event)) == Ok::<EventView, ShapeError>(
            event,
        ),
{
    lemma_tags_name_their_kind(kind_of_event(event));
    match event {
        EventView::Commit(commit) => lemma_commit_round_trip(commit),
        EventView::Handle(handle) => lemma_handle_round_trip(handle),
        EventView::Tombstone(tombstone) => lemma_tombstone_round_trip(tombstone),
        EventView::Account(account) => lemma_sequence_round_trip(account.sequence),
        EventView::Identity(identity) => lemma_sequence_round_trip(identity.sequence),
    }
}

/// A message decodes to the header and the event that it encodes: where the
/// header decoder reads the encoding of `header` off the front of `data`,
/// `header` names the type of `event`, and the body decoder reads the encoding
/// of `event` from the bytes behind, `data` decodes to exactly `header` and
/// `event`.
pub proof fn lemma_message_round_trip(data: Seq<u8>, header: HeaderView, event: EventView)
    ensures
        leading_item(data) matches Ok((tree, used)) ==> (tree == encode_header(header)
            && header.type_ == kind_of_event(event).spec_tag() && whole_item(
            data.skip(used as int),
        ) == Ok::<Tree, Seq<char>>(encode_event(event)) ==> decoded(data) == Ok::<
            (HeaderView, EventView),
            crate::firehose::ErrorView,
        >((header, event))),
{
    lemma_header_round_trip(header);
    lemma_event_round_trip(event);
}

} // verus!
