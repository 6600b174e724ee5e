//! The text of a stored geometry record.
//!
//! A record is written as one JSON object on one line, its four members in a
//! fixed order and without spaces:
//! `{"width":800,"height":600,"x":0,"y":0}`.
//! A text of exactly this shape is called canonical. Each record has one
//! canonical text, and that text reads back as the record.

use crate::decimal::{
    digits, is_digit, lemma_signed_reads_back, lemma_unsigned_reads_back, push_signed,
    push_unsigned, read_signed, read_unsigned, signed_at_front, signed_digits, unsigned_at_front,
};
use crate::geometry::WindowGeometry;
use vstd::prelude::*;

verus! {

/// `{"width":`
pub open spec fn width_key() -> Seq<u8> {
    seq![123u8, 34, 119, 105, 100, 116, 104, 34, 58]
}

/// `,"height":`
pub open spec fn height_key() -> Seq<u8> {
    seq![44u8, 34, 104, 101, 105, 103, 104, 116, 34, 58]
}

/// `,"x":`
pub open spec fn x_key() -> Seq<u8> {
    seq![44u8, 34, 120, 34, 58]
}

/// `,"y":`
pub open spec fn y_key() -> Seq<u8> {
    seq![44u8, 34, 121, 34, 58]
}

/// `}`
pub open spec fn closing() -> Seq<u8> {
    seq![125u8]
}

/// The canonical text of a record.
pub open spec fn record_text(g: WindowGeometry) -> Seq<u8> {
    width_key() + (digits(g.width as nat) + (height_key() + (digits(g.height as nat) + (x_key() + (
    signed_digits(g.x as int) + (y_key() + (signed_digits(g.y as int) + closing())))))))
}

/// Whether some record has `text` as its canonical text.
pub open spec fn is_canonical(text: Seq<u8>) -> bool {
    exists|g: WindowGeometry| record_text(g) == text
}

/// The record that a canonical text stands for.
pub open spec fn canonical_record(text: Seq<u8>) -> WindowGeometry {
    choose|g: WindowGeometry| record_text(g) == text
}

/// What is left of `s` behind `piece`, where `s` starts with it.
pub open spec fn behind(s: Seq<u8>, piece: Seq<u8>) -> Option<Seq<u8>> {
    if piece.is_prefix_of(s) {
        Some(s.skip(piece.len() as int))
    } else {
        None
    }
}

/// The unsigned number behind `key` at the front of `s`, and what follows it.
pub open spec fn unsigned_member(s: Seq<u8>, key: Seq<u8>) -> Option<(u32, Seq<u8>)> {
    match behind(s, key) {
        None => None,
        Some(number) => match unsigned_at_front(number) {
            None => None,
            Some((v, k)) => Some((v, number.skip(k as int))),
        },
    }
}

/// The signed number behind `key` at the front of `s`, and what follows it.
pub open spec fn signed_member(s: Seq<u8>, key: Seq<u8>) -> Option<(i32, Seq<u8>)> {
    match behind(s, key) {
        None => None,
        Some(number) => match signed_at_front(number) {
            None => None,
            Some((v, k)) => Some((v, number.skip(k as int))),
        },
    }
}

/// The four numbers found at the places where a canonical text has them. A
/// text that is read here need not be canonical: a number may carry leading
/// zeros.
pub open spec fn reading(text: Seq<u8>) -> Option<WindowGeometry> {
    match unsigned_member(text, width_key()) {
        None => None,
        Some((width, s1)) => match unsigned_member(s1, height_key()) {
            None => None,
            Some((height, s2)) => match signed_member(s2, x_key()) {
                None => None,
                Some((x, s3)) => match signed_member(s3, y_key()) {
                    None => None,
                    Some((y, s4)) => if s4 == closing() {
                        Some(WindowGeometry { width, height, x, y })
                    } else {
                        None
                    },
                },
            },
        },
    }
}

proof fn lemma_behind_concat(piece: Seq<u8>, rest: Seq<u8>)
    ensures
        behind(piece + rest, piece) == Some(rest),
{
    let s = piece + rest;
    assert(s.subrange(0, piece.len() as int) =~= piece);
    assert(s.skip(piece.len() as int) =~= rest);
}

proof fn lemma_unsigned_member(key: Seq<u8>, n: u32, rest: Seq<u8>)
    requires
        rest.len() == 0 || !is_digit(rest[0]),
    ensures
        unsigned_member(key + (digits(n as nat) + rest), key) == Some((n, rest)),
{
    lemma_behind_concat(key, digits(n as nat) + rest);
    lemma_unsigned_reads_back(n, rest);
}

proof fn lemma_signed_member(key: Seq<u8>, i: i32, rest: Seq<u8>)
    requires
        rest.len() == 0 || !is_digit(rest[0]),
    ensures
        signed_member(key + (signed_digits(i as int) + rest), key) == Some((i, rest)),
{
    lemma_behind_concat(key, signed_digits(i as int) + rest);
    lemma_signed_reads_back(i, rest);
}

/// The canonical text of a record reads as that record.
pub proof fn lemma_reading_of_record(g: WindowGeometry)
    ensures
        reading(record_text(g)) == Some(g),
{
    let s4 = closing();
    let s3 = y_key() + (signed_digits(g.y as int) + s4);
    let s2 = x_key() + (signed_digits(g.x as int) + s3);
    let s1 = height_key() + (digits(g.height as nat) + s2);
    lemma_unsigned_member(width_key(), g.width, s1);
    lemma_unsigned_member(height_key(), g.height, s2);
    lemma_signed_member(x_key(), g.x, s3);
    lemma_signed_member(y_key(), g.y, s4);
}

/// Two records with the same canonical text are the same record.
pub proof fn lemma_record_text_is_injective(a: WindowGeometry, b: WindowGeometry)
    requires
        record_text(a) == record_text(b),
    ensures
        a == b,
{
    lemma_reading_of_record(a);
    lemma_reading_of_record(b);
}

/// The record of a canonical text is the one that was written.
pub proof fn lemma_canonical_record(g: WindowGeometry)
    ensures
        is_canonical(record_text(g)),
        canonical_record(record_text(g)) == g,
{
    lemma_record_text_is_injective(canonical_record(record_text(g)), g);
}

fn push_all(out: &mut Vec<u8>, piece: &[u8])
    ensures
        final(out)@ == old(out)@ + piece@,
{
    let mut i: usize = 0;
    while i < piece.len()
        invariant
            i <= piece@.len(),
            out@ == old(out)@ + piece@.take(i as int),
        decreases piece@.len() - i,
    {
        out.push(piece[i]);
        i = i + 1;
    }
}

fn same_bytes(a: &[u8], b: &[u8]) -> (same: bool)
    ensures
        same == (a@ == b@),
{
    if a.len() != b.len() {
        return false;
    }
    let mut i: usize = 0;
    while i < a.len()
        invariant
            i <= a@.len(),
            a@.len() == b@.len(),
            forall|j: int| 0 <= j < i ==> a@[j] == b@[j],
        decreases a@.len() - i,
    {
        if a[i] != b[i] {
            return false;
        }
        i = i + 1;
    }
    assert(a@ =~= b@);
    true
}

/// Tells whether `piece` stands in `text` at `start`, and where it ends.
fn expect(text: &[u8], start: usize, piece: &[u8]) -> (end: Option<usize>)
    requires
        start <= text@.len(),
    ensures
        match behind(text@.skip(start as int), piece@) {
            Some(rest) => end matches Some(at) && at == start + piece@.len() && at <= text@.len()
                && rest == text@.skip(at as int),
            None => end.is_none(),
        },
{
    let ghost s = text@.skip(start as int);
    if piece.len() > text.len() - start {
        return None;
    }
    let mut i: usize = 0;
    while i < piece.len()
        invariant
            i <= piece@.len(),
            start + piece@.len() <= text@.len() <= usize::MAX,
            s == text@.skip(start as int),
            forall|j: int| 0 <= j < i ==> piece@[j] == s[j],
        decreases piece@.len() - i,
    {
        if text[start + i] != piece[i] {
            return None;
        }
        i = i + 1;
    }
    Some(start + piece.len())
}

/// Reads the unsigned number behind `key` at `start`, and says where it ends.
fn read_unsigned_member(text: &[u8], start: usize, key: &[u8]) -> (r: Option<(u32, usize)>)
    requires
        start <= text@.len(),
    ensures
        match unsigned_member(text@.skip(start as int), key@) {
            Some((v, rest)) => r matches Some((found, end)) && found == v && end <= text@.len()
                && rest == text@.skip(end as int),
            None => r.is_none(),
        },
{
    match expect(text, start, key) {
        None => None,
        Some(at) => read_unsigned(text, at),
    }
}

/// Reads the signed number behind `key` at `start`, and says where it ends.
fn read_signed_member(text: &[u8], start: usize, key: &[u8]) -> (r: Option<(i32, usize)>)
    requires
        start <= text@.len(),
    ensures
        match signed_member(text@.skip(start as int), key@) {
            Some((v, rest)) => r matches Some((found, end)) && found == v && end <= text@.len()
                && rest == text@.skip(end as int),
            None => r.is_none(),
        },
{
    match expect(text, start, key) {
        None => None,
        Some(at) => read_signed(text, at),
    }
}

/// Writes the canonical text of a record.
pub fn encode(g: &WindowGeometry) -> (text: Vec<u8>)
    ensures
        text@ == record_text(*g),
{
    let width_key: [u8; 9] = [123, 34, 119, 105, 100, 116, 104, 34, 58];
    let height_key: [u8; 10] = [44, 34, 104, 101, 105, 103, 104, 116, 34, 58];
    let x_key: [u8; 5] = [44, 34, 120, 34, 58];
    let y_key: [u8; 5] = [44, 34, 121, 34, 58];
    let mut text: Vec<u8> = Vec::new();
    push_all(&mut text, width_key.as_slice());
    push_unsigned(&mut text, g.width);
    push_all(&mut text, height_key.as_slice());
    push_unsigned(&mut text, g.height);
    push_all(&mut text, x_key.as_slice());
    push_signed(&mut text, g.x);
    push_all(&mut text, y_key.as_slice());
    push_signed(&mut text, g.y);
    text.push(125);
    text
}

/// Reads the four numbers of a record from the places where a canonical text
/// has them.
fn read_members(text: &[u8]) -> (r: Option<WindowGeometry>)
    ensures
        r == reading(text@),
{
    let width_key: [u8; 9] = [123, 34, 119, 105, 100, 116, 104, 34, 58];
    let height_key: [u8; 10] = [44, 34, 104, 101, 105, 103, 104, 116, 34, 58];
    let x_key: [u8; 5] = [44, 34, 120, 34, 58];
    let y_key: [u8; 5] = [44, 34, 121, 34, 58];
    assert(text@.skip(0) =~= text@);

    let (width, after_width) = match read_unsigned_member(text, 0, width_key.as_slice()) {
        Some(found) => found,
        None => { return None; },
    };
    let (height, after_height) = match read_unsigned_member(
        text,
        after_width,
        height_key.as_slice(),
    ) {
        Some(found) => found,
        None => { return None; },
    };
    let (x, after_x) = match read_signed_member(text, after_height, x_key.as_slice()) {
        Some(found) => found,
        None => { return None; },
    };
    let (y, after_y) = match read_signed_member(text, after_x, y_key.as_slice()) {
        Some(found) => found,
        None => { return None; },
    };
    let ghost tail = text@.skip(after_y as int);
    if after_y < text.len() && text.len() - after_y == 1 && text[after_y] == 125 {
        assert(tail =~= closing());
        Some(WindowGeometry { width, height, x, y })
    } else {
        assert(tail != closing()) by {
            if tail == closing() {
                assert(tail.len() == 1);
                assert(tail[0] == text@[after_y as int]);
            }
        }
        None
    }
}

/// Reads a canonical text. A text that is not canonical is not read, however
/// close it comes: the record found in it is written again and the two texts
/// are compared.
pub fn read_canonical(text: &[u8]) -> (r: Option<WindowGeometry>)
    ensures
        r == (if is_canonical(text@) {
            Some(canonical_record(text@))
        } else {
            None
        }),
        r matches Some(g) ==> text@ == record_text(g),
{
    let found = read_members(text);
    proof {
        if is_canonical(text@) {
            lemma_reading_of_record(canonical_record(text@));
        }
    }
    match found {
        Some(g) => {
            let again = encode(&g);
            if same_bytes(again.as_slice(), text) {
                proof {
                    lemma_canonical_record(g);
                }
                Some(g)
            } else {
                None
            }
        },
        None => None,
    }
}

} // verus!
