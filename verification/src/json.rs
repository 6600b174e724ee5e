//! Records read from any JSON document.
//!
//! A geometry file that was edited by hand, or written by another program,
//! may hold the four members in another order, with spaces, or beside
//! members that mean nothing here. Such a text is handed to `serde_json`,
//! and the record is built from the integers that it finds.

use crate::geometry::WindowGeometry;
use vstd::prelude::*;

verus! {

/// `serde_json::Value`: a parsed JSON document. Nothing inside it is seen
/// here; what the library reads of it has the name `integer_members`.
#[verifier::external_type_specification]
#[verifier::external_body]
pub struct ExJsonValue(serde_json::Value);

/// The integer members of a parsed document: for each key of the top-level
/// object whose value is an integer that fits `i64`, that integer. The map is
/// empty where the document is not an object.
pub uninterp spec fn integer_members(doc: serde_json::Value) -> Map<Seq<char>, i64>;

/// The integer members of the document that `text` is, or nothing where
/// `serde_json` does not accept `text` as one JSON document.
pub uninterp spec fn json_integer_members(text: Seq<u8>) -> Option<Map<Seq<char>, i64>>;

/// The member of `members` under `key`, if there is one.
pub open spec fn member(members: Map<Seq<char>, i64>, key: Seq<char>) -> Option<i64> {
    if members.dom().contains(key) {
        Some(members[key])
    } else {
        None
    }
}

/// `serde_json::from_slice` at the type `serde_json::Value`: parses a whole
/// text as one JSON document. It fails on anything that is not exactly one
/// document, trailing bytes other than white space included; of a member
/// that an object holds twice it keeps the later one. The contract only
/// names what was read: the same text always gives the same document.
#[verifier::external_body]
fn parse_document(text: &[u8]) -> (doc: Option<serde_json::Value>)
    ensures
        match doc {
            Some(d) => json_integer_members(text@) == Some(integer_members(d)),
            None => json_integer_members(text@).is_none(),
        },
{
    serde_json::from_slice::<serde_json::Value>(text).ok()
}

/// `serde_json::Value::get` with a string index, then `Value::as_i64`: the
/// member under `key` where the document is an object that has one and its
/// value is an integer within `i64`; nothing for a missing member, a
/// fraction, a string or any other kind of value.
#[verifier::external_body]
fn integer_member(doc: &serde_json::Value, key: &str) -> (v: Option<i64>)
    ensures
        v == member(integer_members(*doc), key@),
{
    doc.get(key).and_then(serde_json::Value::as_i64)
}

/// The record that four members of a document make: all four must be there,
/// width and height within `u32`, x and y within `i32`.
pub open spec fn record_of(
    width: Option<i64>,
    height: Option<i64>,
    x: Option<i64>,
    y: Option<i64>,
) -> Option<WindowGeometry> {
    match (width, height, x, y) {
        (Some(w), Some(h), Some(px), Some(py)) => if 0 <= w <= u32::MAX && 0 <= h <= u32::MAX
            && i32::MIN <= px <= i32::MAX && i32::MIN <= py <= i32::MAX {
            Some(WindowGeometry { width: w as u32, height: h as u32, x: px as i32, y: py as i32 })
        } else {
            None
        },
        _ => None,
    }
}

/// The record that the integer members of a document make.
pub open spec fn record_of_members(members: Map<Seq<char>, i64>) -> Option<WindowGeometry> {
    record_of(
        member(members, "width"@),
        member(members, "height"@),
        member(members, "x"@),
        member(members, "y"@),
    )
}

/// The record that a text holds when it is read as a JSON document.
pub open spec fn document_record(text: Seq<u8>) -> Option<WindowGeometry> {
    match json_integer_members(text) {
        Some(members) => record_of_members(members),
        None => None,
    }
}

/// Builds a record from the four members of a document. A missing member or
/// one out of range gives no record.
pub fn record_from_members(
    width: Option<i64>,
    height: Option<i64>,
    x: Option<i64>,
    y: Option<i64>,
) -> (r: Option<WindowGeometry>)
    ensures
        r == record_of(width, height, x, y),
{
    match (width, height, x, y) {
        (Some(w), Some(h), Some(px), Some(py)) => {
            if 0 <= w && w <= 0xffff_ffff && 0 <= h && h <= 0xffff_ffff && -0x8000_0000 <= px && px
                <= 0x7fff_ffff && -0x8000_0000 <= py && py <= 0x7fff_ffff {
                Some(WindowGeometry { width: w as u32, height: h as u32, x: px as i32, y: py as i32 })
            } else {
                None
            }
        },
        _ => None,
    }
}

/// Reads a record from a text that is a JSON document.
pub fn read_document(text: &[u8]) -> (r: Option<WindowGeometry>)
    ensures
        r == document_record(text@),
{
    match parse_document(text) {
        Some(doc) => {
            let width = integer_member(&doc, "width");
            let height = integer_member(&doc, "height");
            let x = integer_member(&doc, "x");
            let y = integer_member(&doc, "y");
            record_from_members(width, height, x, y)
        },
        None => None,
    }
}

} // verus!
