//! Decoded CBOR data items as plain values, and lookup of map entries by key.

use vstd::prelude::*;

verus! {

/// The content identifier type of the `cid` crate. A value of it is carried
/// through unread: this library never looks inside a content hash.
#[verifier::external_type_specification]
#[verifier::external_body]
pub struct ExCidGeneric<const S: usize>(cid::CidGeneric<S>);

/// A decoded CBOR data item.
#[derive(Debug, PartialEq)]
pub enum Item {
    Null,
    Bool(bool),
    Integer(i128),
    /// A floating-point number, held as its 64 bits.
    Float(u64),
    Text(String),
    Bytes(Vec<u8>),
    List(Vec<Item>),
    /// The key and value of each entry of a map, in the order in which they
    /// were read.
    Pairs(Vec<(Item, Item)>),
    /// A link to content, by its hash.
    Link(cid::Cid),
    /// A tagged item.
    Tag(u64, Box<Item>),
}

/// The mathematical value of an [`Item`].
pub ghost enum Tree {
    Null,
    Bool(bool),
    Integer(int),
    Float(u64),
    Text(Seq<char>),
    Bytes(Seq<u8>),
    List(Seq<Tree>),
    Pairs(Seq<(Tree, Tree)>),
    Link(cid::Cid),
    Tag(u64, Box<Tree>),
}

/// The value that an item stands for.
pub open spec fn tree_of(item: Item) -> Tree
    decreases item,
{
    match item {
        Item::Null => Tree::Null,
        Item::Bool(b) => Tree::Bool(b),
        Item::Integer(i) => Tree::Integer(i as int),
        Item::Float(bits) => Tree::Float(bits),
        Item::Text(s) => Tree::Text(s@),
        Item::Bytes(b) => Tree::Bytes(b@),
        Item::List(items) => Tree::List(
            Seq::new(
                items.len() as nat,
                |i: int|
                    if 0 <= i < items.len() {
                        tree_of(items[i])
                    } else {
                        Tree::Null
                    },
            ),
        ),
        Item::Pairs(entries) => Tree::Pairs(
            Seq::new(
                entries.len() as nat,
                |i: int|
                    if 0 <= i < entries.len() {
                        (tree_of(entries[i].0), tree_of(entries[i].1))
                    } else {
                        (Tree::Null, Tree::Null)
                    },
            ),
        ),
        Item::Link(c) => Tree::Link(c),
        Item::Tag(t, inner) => Tree::Tag(t, Box::new(tree_of(*inner))),
    }
}

impl View for Item {
    type V = Tree;

    open spec fn view(&self) -> Tree {
        tree_of(*self)
    }
}

/// The values of the items of a list.
pub open spec fn trees_of(items: Seq<Item>) -> Seq<Tree> {
    Seq::new(items.len(), |i: int| tree_of(items[i]))
}

/// The values of the entries of a map.
pub open spec fn pairs_of(entries: Seq<(Item, Item)>) -> Seq<(Tree, Tree)> {
    Seq::new(entries.len(), |i: int| (tree_of(entries[i].0), tree_of(entries[i].1)))
}

/// A list item stands for the list of what its items stand for.
pub proof fn lemma_list_view(items: Vec<Item>)
    ensures
        Item::List(items)@ == Tree::List(trees_of(items@)),
{
    assert(Item::List(items)@->List_0 =~= trees_of(items@));
}

/// A map item stands for the entries that its entries stand for, in order.
pub proof fn lemma_pairs_view(entries: Vec<(Item, Item)>)
    ensures
        Item::Pairs(entries)@ == Tree::Pairs(pairs_of(entries@)),
{
    assert(Item::Pairs(entries)@->Pairs_0 =~= pairs_of(entries@));
}

/// Whether an entry of a map has the text `key` as its key.
pub open spec fn keyed(key: Seq<char>) -> spec_fn((Tree, Tree)) -> bool {
    |entry: (Tree, Tree)| entry.0 == Tree::Text(key)
}

/// What a map holds under a text key.
pub ghost enum Found {
    /// No entry has the key.
    Absent,
    /// Exactly one entry has the key, with this value.
    Once(Tree),
    /// Two or more entries have the key.
    Repeated,
}

/// What the entries `pairs` of a map hold under the text key `key`.
pub open spec fn field(pairs: Seq<(Tree, Tree)>, key: Seq<char>) -> Found {
    let hits = pairs.filter(keyed(key));
    if hits.len() == 0 {
        Found::Absent
    } else if hits.len() == 1 {
        Found::Once(hits[0].1)
    } else {
        Found::Repeated
    }
}

/// What [`lookup`] found under a key.
#[derive(Debug)]
pub enum Lookup<'a> {
    Absent,
    Once(&'a Item),
    Repeated,
}

impl<'a> Lookup<'a> {
    /// The mathematical value of what was found.
    pub open spec fn found(self) -> Found {
        match self {
            Lookup::Absent => Found::Absent,
            Lookup::Once(item) => Found::Once(item@),
            Lookup::Repeated => Found::Repeated,
        }
    }
}

/// Whether `item` is the text `key`.
pub fn is_text(item: &Item, key: &str) -> (r: bool)
    ensures
        r == (item@ == Tree::Text(key@)),
{
    match item {
        Item::Text(s) => {
            let wanted = String::from_str(key);
            s.eq(&wanted)
        },
        _ => false,
    }
}

/// Looks up the text key `key` among the entries of a map.
pub fn lookup<'a>(entries: &'a Vec<(Item, Item)>, key: &str) -> (r: Lookup<'a>)
    ensures
        r.found() == field(pairs_of(entries@), key@),
{
    let ghost pairs = pairs_of(entries@);
    let ghost pred = keyed(key@);
    let mut result = Lookup::Absent;
    let mut i: usize = 0;
    proof {
        reveal(Seq::filter);
        assert(pairs.take(0) =~= Seq::<(Tree, Tree)>::empty());
    }
    while i < entries.len()
        invariant
            i <= entries.len(),
            pairs == pairs_of(entries@),
            pred == keyed(key@),
            result.found() == field(pairs.take(i as int), key@),
        decreases entries.len() - i,
    {
        let entry = &entries[i];
        let hit = is_text(&entry.0, key);
        proof {
            reveal(Seq::filter);
            let before = pairs.take(i as int);
            let now = pairs.take(i + 1);
            assert(now.drop_last() =~= before);
            assert(now.last() == (entry.0@, entry.1@));
            assert(pred(now.last()) == hit);
        }
        if hit {
            result =
            match result {
                Lookup::Absent => Lookup::Once(&entry.1),
                _ => Lookup::Repeated,
            };
        }
        i += 1;
    }
    proof {
        assert(pairs.take(i as int) =~= pairs);
    }
    result
}

} // verus!
