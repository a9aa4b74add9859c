//! The event filter: which operations of an event concern a namespace.

use crate::firehose::{
    operation_views, EventView, OperationView, SubscribeRepos, SubscribeReposCommitOperation,
};
use crate::text::starts_with;
use vstd::prelude::*;

verus! {

/// Whether an operation's path begins with `prefix`.
pub open spec fn in_namespace(prefix: Seq<char>) -> spec_fn(OperationView) -> bool {
    |op: OperationView| prefix.is_prefix_of(op.path)
}

/// The operations of `ops` whose path begins with `prefix`, in their order.
pub open spec fn selected(ops: Seq<OperationView>, prefix: Seq<char>) -> Seq<OperationView> {
    ops.filter(in_namespace(prefix))
}

/// The values of a sequence of borrowed operations, in order.
pub open spec fn borrowed_views(ops: Seq<&SubscribeReposCommitOperation>) -> Seq<OperationView> {
    ops.map_values(|op: &SubscribeReposCommitOperation| op@)
}

/// What is to be forwarded of an event: the operations of a commit that lie in
/// the namespace, where there are any. An event of another type, or a commit
/// with no such operation, has nothing to forward.
pub open spec fn spec_select_operations(event: EventView, prefix: Seq<char>) -> Option<
    Seq<OperationView>,
> {
    match event {
        EventView::Commit(commit) => if selected(commit.operations, prefix).len() > 0 {
            Some(selected(commit.operations, prefix))
        } else {
            None
        },
        _ => None,
    }
}

/// Selects the operations of `event` whose path begins with
/// `namespace_prefix`, in the order in which the event holds them. The result
/// is never an empty list.
pub fn select_operations<'a>(event: &'a SubscribeRepos, namespace_prefix: &str) -> (r: Option<
    Vec<&'a SubscribeReposCommitOperation>,
>)
    ensures
        match r {
            Some(ops) => spec_select_operations(event@, namespace_prefix@) == Some(
                borrowed_views(ops@),
            ),
            None => spec_select_operations(event@, namespace_prefix@) is None,
        },
{
    match event {
        SubscribeRepos::Commit(commit) => {
            let ghost all = operation_views(commit.operations@);
            let ghost pred = in_namespace(namespace_prefix@);
            let mut found: Vec<&'a SubscribeReposCommitOperation> = Vec::new();
            let mut i: usize = 0;
            proof {
                reveal(Seq::filter);
                assert(all.take(0) =~= Seq::<OperationView>::empty());
                assert(borrowed_views(found@) =~= Seq::<OperationView>::empty());
            }
            while i < commit.operations.len()
                invariant
                    i <= commit.operations.len(),
                    all == operation_views(commit.operations@),
                    pred == in_namespace(namespace_prefix@),
                    borrowed_views(found@) == all.take(i as int).filter(pred),
                decreases commit.operations.len() - i,
            {
                let op = &commit.operations[i];
                let hit = starts_with(op.path.as_str(), namespace_prefix);
                proof {
                    reveal(Seq::filter);
                    assert(all.take(i + 1).drop_last() =~= all.take(i as int));
                    assert(all.take(i + 1).last() == op@);
                    assert(pred(op@) == hit);
                    assert(borrowed_views(found@.push(op)) =~= borrowed_views(found@).push(op@));
                }
                if hit {
                    found.push(op);
                }
                i += 1;
            }
            proof {
                assert(all.take(i as int) =~= all);
            }
            if found.len() > 0 {
                Some(found)
            } else {
                None
            }
        },
        _ => None,
    }
}

/// The positions in `ops` of the operations whose path begins with `prefix`,
/// in rising order.
pub open spec fn selected_positions(ops: Seq<OperationView>, prefix: Seq<char>) -> Seq<int>
    decreases ops.len(),
{
    if ops.len() == 0 {
        Seq::empty()
    } else if in_namespace(prefix)(ops.last()) {
        selected_positions(ops.drop_last(), prefix).push(ops.len() - 1)
    } else {
        selected_positions(ops.drop_last(), prefix)
    }
}

/// The selected operations are a subsequence of the operations given, in their
/// order: the selection is made of exactly the operations at the positions
/// [`selected_positions`], which rise strictly and are the positions of all
/// operations in the namespace and of no others.
pub proof fn lemma_selected_is_ordered_subsequence(ops: Seq<OperationView>, prefix: Seq<char>)
    ensures
        selected_positions(ops, prefix).len() == selected(ops, prefix).len(),
        forall|k: int|
            0 <= k < selected(ops, prefix).len() ==> {
                let at = #[trigger] selected_positions(ops, prefix)[k];
                &&& 0 <= at < ops.len()
                &&& selected(ops, prefix)[k] == ops[at]
                &&& prefix.is_prefix_of(ops[at].path)
            },
        forall|j: int, k: int|
            0 <= j < k < selected(ops, prefix).len() ==> selected_positions(ops, prefix)[j]
                < selected_positions(ops, prefix)[k],
        forall|i: int|
            0 <= i < ops.len() && prefix.is_prefix_of(#[trigger] ops[i].path)
                ==> selected_positions(ops, prefix).contains(i),
    decreases ops.len(),
{
    reveal(Seq::filter);
    if ops.len() > 0 {
        let rest = ops.drop_last();
        lemma_selected_is_ordered_subsequence(rest, prefix);
        let positions = selected_positions(ops, prefix);
        let before = selected_positions(rest, prefix);
        assert forall|i: int|
            0 <= i < ops.len() && prefix.is_prefix_of(#[trigger] ops[i].path) implies positions.contains(
            i,
        ) by {
            if i < ops.len() - 1 {
                assert(rest[i] == ops[i]);
                assert(before.contains(i));
                let k = choose|k: int| 0 <= k < before.len() && before[k] == i;
                assert(positions[k] == i);
            } else {
                assert(positions[positions.len() - 1] == i);
            }
        }
    }
}

} // verus!
