//! The two CBOR decoders that a message passes through, behind contracts that
//! Verus takes on trust.
//!
//! The envelope header is read by `ciborium`, the body by
//! `serde_ipld_dagcbor`. Both hand back a tree of their own type, which is then
//! turned, node for node, into an [`Item`]. What a decoder makes of given bytes
//! is not restated here: it has a name, and the contracts of this module say
//! that the decoder returns what the name stands for.

use crate::item::{Item, Tree};
use ciborium::Value;
use ipld_core::ipld::Ipld;
use std::io::Cursor;
use vstd::prelude::*;

verus! {

/// The tree that `ciborium` decodes into. Verus sees nothing inside it.
#[verifier::external_type_specification]
#[verifier::external_body]
pub struct ExValue(Value);

/// The tree that `serde_ipld_dagcbor` decodes into. Verus sees nothing inside
/// it.
#[verifier::external_type_specification]
#[verifier::external_body]
pub struct ExIpld(Ipld);

/// What `ciborium` makes of the first data item of `data`: the item and the
/// number of bytes that it takes, or the text of the decoder's error.
pub uninterp spec fn leading_item(data: Seq<u8>) -> Result<(Tree, nat), Seq<char>>;

/// What `serde_ipld_dagcbor` makes of `data` as a single DAG-CBOR data item
/// with nothing behind it: the item, or the text of the decoder's error.
pub uninterp spec fn whole_item(data: Seq<u8>) -> Result<Tree, Seq<char>>;

/// What a `ciborium::Value` holds.
pub uninterp spec fn value_tree(value: Value) -> Tree;

/// What an `Ipld` value holds.
pub uninterp spec fn ipld_tree(value: Ipld) -> Tree;

/// Turns a `ciborium::Value` into an [`Item`], variant for variant, and so
/// gives what the value holds its name: the contract claims no more than that
/// the item stands for [`value_tree`] of the value. `Value` is marked
/// non-exhaustive; the version in use has no variant but those named here.
#[verifier::external_body]
pub(crate) fn item_from_value(value: Value) -> (r: Item)
    ensures
        r@ == value_tree(value),
{
    match value {
        Value::Null => Item::Null,
        Value::Bool(b) => Item::Bool(b),
        Value::Integer(i) => Item::Integer(i.into()),
        Value::Float(x) => Item::Float(x.to_bits()),
        Value::Text(s) => Item::Text(s),
        Value::Bytes(b) => Item::Bytes(b),
        Value::Array(l) => Item::List(l.into_iter().map(item_from_value).collect()),
        Value::Map(m) => Item::Pairs(
            m.into_iter().map(|(k, v)| (item_from_value(k), item_from_value(v))).collect(),
        ),
        Value::Tag(t, inner) => Item::Tag(t, Box::new(item_from_value(*inner))),
        _ => Item::Null,
    }
}

/// Turns an `Ipld` value into an [`Item`], variant for variant; the key of a
/// map entry becomes a text item. The contract claims no more than that the
/// item stands for [`ipld_tree`] of the value.
#[verifier::external_body]
pub(crate) fn item_from_ipld(value: Ipld) -> (r: Item)
    ensures
        r@ == ipld_tree(value),
{
    match value {
        Ipld::Null => Item::Null,
        Ipld::Bool(b) => Item::Bool(b),
        Ipld::Integer(i) => Item::Integer(i),
        Ipld::Float(x) => Item::Float(x.to_bits()),
        Ipld::String(s) => Item::Text(s),
        Ipld::Bytes(b) => Item::Bytes(b),
        Ipld::List(l) => Item::List(l.into_iter().map(item_from_ipld).collect()),
        Ipld::Map(m) => Item::Pairs(
            m.into_iter().map(|(k, v)| (Item::Text(k), item_from_ipld(v))).collect(),
        ),
        Ipld::Link(c) => Item::Link(c),
    }
}

/// Calls `ciborium::de::from_reader` on a cursor over `data`, for a
/// `ciborium::Value`, and reports how far the cursor came. The contract claims
/// that the outcome is a function of the bytes alone, named [`leading_item`],
/// and that the decoder has read no more bytes than there are: it reads from
/// the cursor with `read_exact`, which fails where the bytes run out. An error
/// is handed back as its text.
#[verifier::external_body]
pub(crate) fn first_value(data: &[u8]) -> (r: Result<(Value, usize), String>)
    ensures
        match r {
            Ok((value, used)) => leading_item(data@) == Ok::<(Tree, nat), Seq<char>>(
                (value_tree(value), used as nat),
            ) && used <= data.len(),
            Err(text) => leading_item(data@) == Err::<(Tree, nat), Seq<char>>(text@),
        },
{
    let mut reader = Cursor::new(data);
    match ciborium::de::from_reader::<Value, _>(&mut reader) {
        Ok(value) => Ok((value, reader.position() as usize)),
        Err(e) => Err(e.to_string()),
    }
}

/// Calls `serde_ipld_dagcbor::from_reader` on a cursor over `data`, for an
/// `Ipld` value. The decoder refuses bytes behind the item. The contract
/// claims that the outcome is a function of the bytes alone, named
/// [`whole_item`]. An error is handed back as its text.
#[verifier::external_body]
pub(crate) fn sole_value(data: &[u8]) -> (r: Result<Ipld, String>)
    ensures
        match r {
            Ok(value) => whole_item(data@) == Ok::<Tree, Seq<char>>(ipld_tree(value)),
            Err(text) => whole_item(data@) == Err::<Tree, Seq<char>>(text@),
        },
{
    match serde_ipld_dagcbor::from_reader::<Ipld, _>(Cursor::new(data)) {
        Ok(value) => Ok(value),
        Err(e) => Err(e.to_string()),
    }
}

} // verus!
