//! Sealing the stored account and password.
//!
//! A sealed value is "dpapi:" followed by the Base64 of what Windows DPAPI
//! made of the text; DPAPI itself is called by the application. A value
//! without the prefix is plain text from an older version and is read as
//! it is (and sealed when written back). A sealed value that cannot be
//! opened reads as empty, so that the account counts as not set up.

use vstd::prelude::*;
use vstd::string::*;
use vstd::utf8::{valid_utf8, decode_utf8, encode_utf8};
use crate::text::{chars_of, string_of_range, owned, cat, starts_with, starts_with_spec};
use crate::codec::utf8_decode;
use base64::Engine;

verus! {

pub const PREFIX: &'static str = "dpapi:";

/// Whether a stored value is sealed.
pub fn is_encrypted(stored: &str) -> (b: bool)
    ensures
        b == starts_with_spec(stored@, PREFIX@),
{
    starts_with(stored, PREFIX)
}

/// The character for a six-bit value in the standard Base64 alphabet:
/// `A`-`Z`, `a`-`z`, `0`-`9`, `+`, `/`.
pub open spec fn base64_digit(v: int) -> char {
    if v < 26 {
        (65 + v) as char
    } else if v < 52 {
        (97 + v - 26) as char
    } else if v < 62 {
        (48 + v - 52) as char
    } else if v == 62 {
        '+'
    } else {
        '/'
    }
}

/// Standard Base64 with padding, as
/// `base64::engine::general_purpose::STANDARD.encode` writes it: each three
/// bytes, read as one 24-bit number, become four digits of six bits; a last
/// group of one or two bytes is filled with zero bits and padded with `=`.
pub open spec fn base64_encoded(bytes: Seq<u8>) -> Seq<char>
    decreases bytes.len(),
{
    if bytes.len() == 0 {
        Seq::empty()
    } else if bytes.len() == 1 {
        let n = bytes[0] as int;
        seq![base64_digit(n / 4), base64_digit((n % 4) * 16), '=', '=']
    } else if bytes.len() == 2 {
        let n = bytes[0] as int * 256 + bytes[1] as int;
        seq![base64_digit(n / 1024), base64_digit((n / 16) % 64), base64_digit((n % 16) * 4), '=']
    } else {
        let n = bytes[0] as int * 65536 + bytes[1] as int * 256 + bytes[2] as int;
        seq![base64_digit(n / 262144), base64_digit((n / 4096) % 64), base64_digit((n / 64) % 64), base64_digit(n % 64)]
            + base64_encoded(bytes.skip(3))
    }
}

/// What `base64::engine::general_purpose::STANDARD.decode` makes of `text`:
/// the bytes, or `None` where `text` is no valid padded standard Base64.
pub uninterp spec fn base64_decoded(text: Seq<char>) -> Option<Seq<u8>>;

/// `STANDARD.encode(bytes)`: standard Base64 with padding, as
/// `base64_encoded` states it. What it writes, `STANDARD.decode` reads back
/// (the crate's documented round trip; the padding is the canonical one that
/// the decoder asks for).
#[verifier::external_body]
fn b64_encode(bytes: &[u8]) -> (s: String)
    ensures
        s@ == base64_encoded(bytes@),
        base64_decoded(s@) == Some(bytes@),
{
    base64::engine::general_purpose::STANDARD.encode(bytes)
}

/// `STANDARD.decode(text)`: the bytes, or `None` where the decoder reports
/// an error. Its result is named `base64_decoded`.
#[verifier::external_body]
fn b64_decode(text: &str) -> (r: Option<Vec<u8>>)
    ensures
        match r {
            Some(v) => base64_decoded(text@) == Some(v@),
            None => base64_decoded(text@) is None,
        },
{
    match base64::engine::general_purpose::STANDARD.decode(text) {
        Ok(v) => Some(v),
        Err(_) => None,
    }
}

/// The bytes to hand to DPAPI for `plain`: its UTF-8; none for the empty
/// text, which is stored as it is.
pub fn to_seal(plain: &str) -> (r: Option<Vec<u8>>)
    ensures
        match r {
            Some(b) => plain@.len() > 0 && b@ == encode_utf8(plain@),
            None => plain@.len() == 0,
        },
{
    if plain.unicode_len() == 0 {
        None
    } else {
        Some(plain.as_bytes_vec())
    }
}

/// The stored form of what DPAPI made of a text.
///
/// Opening the stored form gives back the same bytes.
pub fn seal(protected: &[u8]) -> (s: String)
    ensures
        s@ == PREFIX@ + base64_encoded(protected@),
        open_spec(s@) == StoredModel::Sealed(protected@),
{
    let b = b64_encode(protected);
    let s = cat(PREFIX, b.as_str());
    proof {
        lemma_sealed_is_encrypted(protected@);
        assert(PREFIX@.len() > 0) by {
            reveal_strlit("dpapi:");
        }
    }
    s
}

/// What a stored value holds.
pub enum Stored {
    Empty,
    /// Plain text from an older version.
    Plain(String),
    /// Bytes for DPAPI to open.
    Sealed(Vec<u8>),
    /// A sealed value whose Base64 is broken.
    Unreadable,
}

pub enum StoredModel {
    Empty,
    Plain(Seq<char>),
    Sealed(Seq<u8>),
    Unreadable,
}

impl View for Stored {
    type V = StoredModel;

    open spec fn view(&self) -> StoredModel {
        match self {
            Stored::Empty => StoredModel::Empty,
            Stored::Plain(s) => StoredModel::Plain(s@),
            Stored::Sealed(b) => StoredModel::Sealed(b@),
            Stored::Unreadable => StoredModel::Unreadable,
        }
    }
}

pub open spec fn open_spec(stored: Seq<char>) -> StoredModel {
    if stored.len() == 0 {
        StoredModel::Empty
    } else if !starts_with_spec(stored, PREFIX@) {
        StoredModel::Plain(stored)
    } else {
        match base64_decoded(stored.skip(PREFIX@.len() as int)) {
            Some(b) => StoredModel::Sealed(b),
            None => StoredModel::Unreadable,
        }
    }
}

pub fn open_stored(stored: &str) -> (r: Stored)
    ensures
        r@ == open_spec(stored@),
{
    let v = chars_of(stored);
    if v.len() == 0 {
        return Stored::Empty;
    }
    if !starts_with(stored, PREFIX) {
        return Stored::Plain(owned(stored));
    }
    let n = PREFIX.unicode_len();
    let rest = string_of_range(&v, n, v.len());
    assert(v@.subrange(n as int, v@.len() as int) =~= stored@.skip(n as int));
    match b64_decode(rest.as_str()) {
        Some(b) => Stored::Sealed(b),
        None => Stored::Unreadable,
    }
}

/// The text that DPAPI gave back: its UTF-8 reading, or empty where DPAPI
/// failed or the bytes are no UTF-8.
pub open spec fn unsealed_spec(opened: Option<Seq<u8>>) -> Seq<char> {
    match opened {
        Some(b) => if valid_utf8(b) {
            decode_utf8(b)
        } else {
            Seq::empty()
        },
        None => Seq::empty(),
    }
}

pub fn unsealed_text(opened: Option<Vec<u8>>) -> (s: String)
    ensures
        s@ == unsealed_spec(
            match opened {
                Some(b) => Some(b@),
                None => None,
            },
        ),
{
    match opened {
        Some(b) => match utf8_decode(b.as_slice()) {
            Some(s) => s,
            None => String::new(),
        },
        None => String::new(),
    }
}

/// A sealed value starts with the prefix, and what follows it is the Base64
/// of the sealed bytes.
pub proof fn lemma_sealed_is_encrypted(protected: Seq<u8>)
    ensures
        starts_with_spec(PREFIX@ + base64_encoded(protected), PREFIX@),
        (PREFIX@ + base64_encoded(protected)).skip(PREFIX@.len() as int) == base64_encoded(protected),
{
    assert((PREFIX@ + base64_encoded(protected)).take(PREFIX@.len() as int) =~= PREFIX@);
    assert((PREFIX@ + base64_encoded(protected)).skip(PREFIX@.len() as int) =~= base64_encoded(protected));
}

/// The bytes that `to_seal` takes from a text, once DPAPI gives them back,
/// read as that text again.
pub proof fn lemma_text_round_trip(plain: Seq<char>)
    ensures
        unsealed_spec(Some(encode_utf8(plain))) == plain,
{
    vstd::utf8::encode_utf8_valid_utf8(plain);
    vstd::utf8::encode_utf8_decode_utf8(plain);
}

/// A stored value without the prefix is read as plain text, unchanged.
pub proof fn lemma_plain_passes(stored: Seq<char>)
    requires
        stored.len() > 0,
        !starts_with_spec(stored, PREFIX@),
    ensures
        open_spec(stored) == StoredModel::Plain(stored),
{
}

} // verus!
