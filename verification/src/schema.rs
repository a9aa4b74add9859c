//! Reading the fields of a record out of the entries of a decoded map.
//!
//! Each reader comes as a pair: a `spec` function that says what the field
//! holds, over the mathematical value of the entries, and an executable
//! function that computes it.

use crate::item::{
    field, lemma_list_view, lookup, pairs_of, trees_of, Found, Item, Lookup, Tree,
};
use vstd::prelude::*;
use vstd::slice::slice_to_vec;

verus! {

/// The fields that the records of the event stream are made of.
#[derive(Debug, Clone, Copy, PartialEq, Eq, Structural)]
pub enum Field {
    /// The event type of an envelope header.
    EventType,
    /// The operation code of an envelope header.
    OperationCode,
    Sequence,
    Repo,
    Ops,
    Blocks,
    Commit,
    Prev,
    Rebase,
    TooBig,
    Time,
    Did,
    Handle,
    Path,
    Action,
    Cid,
}

impl Field {
    /// The text key under which the field stands in an encoded record.
    pub open spec fn spec_key(self) -> Seq<char> {
        match self {
            Field::EventType => "t"@,
            Field::OperationCode => "op"@,
            Field::Sequence => "seq"@,
            Field::Repo => "repo"@,
            Field::Ops => "ops"@,
            Field::Blocks => "blocks"@,
            Field::Commit => "commit"@,
            Field::Prev => "prev"@,
            Field::Rebase => "rebase"@,
            Field::TooBig => "tooBig"@,
            Field::Time => "time"@,
            Field::Did => "did"@,
            Field::Handle => "handle"@,
            Field::Path => "path"@,
            Field::Action => "action"@,
            Field::Cid => "cid"@,
        }
    }

    /// The text key under which the field stands in an encoded record.
    pub fn key(&self) -> (k: &'static str)
        ensures
            k@ == self.spec_key(),
    {
        match self {
            Field::EventType => "t",
            Field::OperationCode => "op",
            Field::Sequence => "seq",
            Field::Repo => "repo",
            Field::Ops => "ops",
            Field::Blocks => "blocks",
            Field::Commit => "commit",
            Field::Prev => "prev",
            Field::Rebase => "rebase",
            Field::TooBig => "tooBig",
            Field::Time => "time",
            Field::Did => "did",
            Field::Handle => "handle",
            Field::Path => "path",
            Field::Action => "action",
            Field::Cid => "cid",
        }
    }
}

/// Why a decoded item is not the record that was expected.
#[derive(Debug, Clone, Copy, PartialEq, Eq, Structural)]
pub enum ShapeError {
    /// The item is not a map.
    NotARecord,
    /// No entry has the field's key.
    Missing(Field),
    /// Two or more entries have the field's key.
    Repeated(Field),
    /// The field holds a value of another kind, or one out of range.
    Mismatch(Field),
}

/// The value of a field that must be there.
pub open spec fn spec_required(pairs: Seq<(Tree, Tree)>, f: Field) -> Result<Tree, ShapeError> {
    match field(pairs, f.spec_key()) {
        Found::Absent => Err(ShapeError::Missing(f)),
        Found::Repeated => Err(ShapeError::Repeated(f)),
        Found::Once(tree) => Ok(tree),
    }
}

/// The value of a field that may be left out or be null.
pub open spec fn spec_optional(pairs: Seq<(Tree, Tree)>, f: Field) -> Result<
    Option<Tree>,
    ShapeError,
> {
    match field(pairs, f.spec_key()) {
        Found::Absent => Ok(None),
        Found::Repeated => Err(ShapeError::Repeated(f)),
        Found::Once(Tree::Null) => Ok(None),
        Found::Once(tree) => Ok(Some(tree)),
    }
}

/// The integer that `tree` holds, where it is one of 64 bits.
pub open spec fn spec_as_i64(tree: Tree, f: Field) -> Result<i64, ShapeError> {
    match tree {
        Tree::Integer(i) if i64::MIN <= i <= i64::MAX => Ok(i as i64),
        _ => Err(ShapeError::Mismatch(f)),
    }
}

/// A required text field.
pub open spec fn spec_text_in(pairs: Seq<(Tree, Tree)>, f: Field) -> Result<Seq<char>, ShapeError> {
    match spec_required(pairs, f) {
        Err(e) => Err(e),
        Ok(Tree::Text(s)) => Ok(s),
        Ok(_) => Err(ShapeError::Mismatch(f)),
    }
}

/// A required integer field of 64 bits.
pub open spec fn spec_integer_in(pairs: Seq<(Tree, Tree)>, f: Field) -> Result<i64, ShapeError> {
    match spec_required(pairs, f) {
        Err(e) => Err(e),
        Ok(tree) => spec_as_i64(tree, f),
    }
}

/// An integer field of 64 bits that may be left out or be null.
pub open spec fn spec_optional_integer_in(pairs: Seq<(Tree, Tree)>, f: Field) -> Result<
    Option<i64>,
    ShapeError,
> {
    match spec_optional(pairs, f) {
        Err(e) => Err(e),
        Ok(None) => Ok(None),
        Ok(Some(tree)) => match spec_as_i64(tree, f) {
            Err(e) => Err(e),
            Ok(i) => Ok(Some(i)),
        },
    }
}

/// A required boolean field.
pub open spec fn spec_flag_in(pairs: Seq<(Tree, Tree)>, f: Field) -> Result<bool, ShapeError> {
    match spec_required(pairs, f) {
        Err(e) => Err(e),
        Ok(Tree::Bool(b)) => Ok(b),
        Ok(_) => Err(ShapeError::Mismatch(f)),
    }
}

/// A required field of bytes.
pub open spec fn spec_bytes_in(pairs: Seq<(Tree, Tree)>, f: Field) -> Result<Seq<u8>, ShapeError> {
    match spec_required(pairs, f) {
        Err(e) => Err(e),
        Ok(Tree::Bytes(b)) => Ok(b),
        Ok(_) => Err(ShapeError::Mismatch(f)),
    }
}

/// A required link field.
pub open spec fn spec_link_in(pairs: Seq<(Tree, Tree)>, f: Field) -> Result<cid::Cid, ShapeError> {
    match spec_required(pairs, f) {
        Err(e) => Err(e),
        Ok(Tree::Link(c)) => Ok(c),
        Ok(_) => Err(ShapeError::Mismatch(f)),
    }
}

/// A link field that may be left out or be null.
pub open spec fn spec_optional_link_in(pairs: Seq<(Tree, Tree)>, f: Field) -> Result<
    Option<cid::Cid>,
    ShapeError,
> {
    match spec_optional(pairs, f) {
        Err(e) => Err(e),
        Ok(None) => Ok(None),
        Ok(Some(Tree::Link(c))) => Ok(Some(c)),
        Ok(Some(_)) => Err(ShapeError::Mismatch(f)),
    }
}

/// A required list field.
pub open spec fn spec_list_in(pairs: Seq<(Tree, Tree)>, f: Field) -> Result<Seq<Tree>, ShapeError> {
    match spec_required(pairs, f) {
        Err(e) => Err(e),
        Ok(Tree::List(items)) => Ok(items),
        Ok(_) => Err(ShapeError::Mismatch(f)),
    }
}

/// The value of a field that must be there.
pub fn required<'a>(entries: &'a Vec<(Item, Item)>, f: Field) -> (r: Result<&'a Item, ShapeError>)
    ensures
        match r {
            Ok(item) => spec_required(pairs_of(entries@), f) == Ok::<Tree, ShapeError>(item@),
            Err(e) => spec_required(pairs_of(entries@), f) == Err::<Tree, ShapeError>(e),
        },
{
    match lookup(entries, f.key()) {
        Lookup::Absent => Err(ShapeError::Missing(f)),
        Lookup::Repeated => Err(ShapeError::Repeated(f)),
        Lookup::Once(item) => Ok(item),
    }
}

/// The value of a field that may be left out or be null.
pub fn optional<'a>(entries: &'a Vec<(Item, Item)>, f: Field) -> (r: Result<
    Option<&'a Item>,
    ShapeError,
>)
    ensures
        match r {
            Ok(Some(item)) => spec_optional(pairs_of(entries@), f) == Ok::<
                Option<Tree>,
                ShapeError,
            >(Some(item@)),
            Ok(None) => spec_optional(pairs_of(entries@), f) == Ok::<Option<Tree>, ShapeError>(
                None,
            ),
            Err(e) => spec_optional(pairs_of(entries@), f) == Err::<Option<Tree>, ShapeError>(e),
        },
{
    match lookup(entries, f.key()) {
        Lookup::Absent => Ok(None),
        Lookup::Repeated => Err(ShapeError::Repeated(f)),
        Lookup::Once(item) => match item {
            Item::Null => Ok(None),
            _ => Ok(Some(item)),
        },
    }
}

/// The integer that `item` holds, where it is one of 64 bits.
pub fn as_i64(item: &Item, f: Field) -> (r: Result<i64, ShapeError>)
    ensures
        r == spec_as_i64(item@, f),
{
    match item {
        Item::Integer(i) => {
            if -0x8000_0000_0000_0000i128 <= *i && *i <= 0x7fff_ffff_ffff_ffffi128 {
                Ok(*i as i64)
            } else {
                Err(ShapeError::Mismatch(f))
            }
        },
        _ => Err(ShapeError::Mismatch(f)),
    }
}

/// A required text field.
pub fn text_in(entries: &Vec<(Item, Item)>, f: Field) -> (r: Result<String, ShapeError>)
    ensures
        match r {
            Ok(s) => spec_text_in(pairs_of(entries@), f) == Ok::<Seq<char>, ShapeError>(s@),
            Err(e) => spec_text_in(pairs_of(entries@), f) == Err::<Seq<char>, ShapeError>(e),
        },
{
    match required(entries, f) {
        Err(e) => Err(e),
        Ok(item) => match item {
            Item::Text(s) => Ok(s.clone()),
            _ => Err(ShapeError::Mismatch(f)),
        },
    }
}

/// A required integer field of 64 bits.
pub fn integer_in(entries: &Vec<(Item, Item)>, f: Field) -> (r: Result<i64, ShapeError>)
    ensures
        r == spec_integer_in(pairs_of(entries@), f),
{
    match required(entries, f) {
        Err(e) => Err(e),
        Ok(item) => as_i64(item, f),
    }
}

/// An integer field of 64 bits that may be left out or be null.
pub fn optional_integer_in(entries: &Vec<(Item, Item)>, f: Field) -> (r: Result<
    Option<i64>,
    ShapeError,
>)
    ensures
        r == spec_optional_integer_in(pairs_of(entries@), f),
{
    match optional(entries, f) {
        Err(e) => Err(e),
        Ok(None) => Ok(None),
        Ok(Some(item)) => match as_i64(item, f) {
            Err(e) => Err(e),
            Ok(i) => Ok(Some(i)),
        },
    }
}

/// A required boolean field.
pub fn flag_in(entries: &Vec<(Item, Item)>, f: Field) -> (r: Result<bool, ShapeError>)
    ensures
        r == spec_flag_in(pairs_of(entries@), f),
{
    match required(entries, f) {
        Err(e) => Err(e),
        Ok(item) => match item {
            Item::Bool(b) => Ok(*b),
            _ => Err(ShapeError::Mismatch(f)),
        },
    }
}

/// A required field of bytes.
pub fn bytes_in(entries: &Vec<(Item, Item)>, f: Field) -> (r: Result<Vec<u8>, ShapeError>)
    ensures
        match r {
            Ok(b) => spec_bytes_in(pairs_of(entries@), f) == Ok::<Seq<u8>, ShapeError>(b@),
            Err(e) => spec_bytes_in(pairs_of(entries@), f) == Err::<Seq<u8>, ShapeError>(e),
        },
{
    match required(entries, f) {
        Err(e) => Err(e),
        Ok(item) => match item {
            Item::Bytes(b) => Ok(slice_to_vec(b.as_slice())),
            _ => Err(ShapeError::Mismatch(f)),
        },
    }
}

/// A required link field.
pub fn link_in(entries: &Vec<(Item, Item)>, f: Field) -> (r: Result<cid::Cid, ShapeError>)
    ensures
        r == spec_link_in(pairs_of(entries@), f),
{
    match required(entries, f) {
        Err(e) => Err(e),
        Ok(item) => match item {
            Item::Link(c) => Ok(*c),
            _ => Err(ShapeError::Mismatch(f)),
        },
    }
}

/// A link field that may be left out or be null.
pub fn optional_link_in(entries: &Vec<(Item, Item)>, f: Field) -> (r: Result<
    Option<cid::Cid>,
    ShapeError,
>)
    ensures
        r == spec_optional_link_in(pairs_of(entries@), f),
{
    match optional(entries, f) {
        Err(e) => Err(e),
        Ok(None) => Ok(None),
        Ok(Some(item)) => match item {
            Item::Link(c) => Ok(Some(*c)),
            _ => Err(ShapeError::Mismatch(f)),
        },
    }
}

/// A required list field.
pub fn list_in<'a>(entries: &'a Vec<(Item, Item)>, f: Field) -> (r: Result<
    &'a Vec<Item>,
    ShapeError,
>)
    ensures
        match r {
            Ok(items) => spec_list_in(pairs_of(entries@), f) == Ok::<Seq<Tree>, ShapeError>(
                trees_of(items@),
            ),
            Err(e) => spec_list_in(pairs_of(entries@), f) == Err::<Seq<Tree>, ShapeError>(e),
        },
{
    match required(entries, f) {
        Err(e) => Err(e),
        Ok(item) => match item {
            Item::List(items) => {
                proof {
                    lemma_list_view(*items);
                }
                Ok(items)
            },
            _ => Err(ShapeError::Mismatch(f)),
        },
    }
}

} // verus!
