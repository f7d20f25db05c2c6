//! Turning reply bytes into text. The portal answers in GBK; should it ever
//! answer in UTF-8, that is read too.

use vstd::prelude::*;
use vstd::string::*;
use vstd::utf8::{valid_utf8, decode_utf8};
use crate::text::{ascii_lower, ascii_lower_spec, contains, contains_spec};

verus! {

/// What `encoding_rs::GBK.decode` makes of `bytes`.
pub uninterp spec fn gbk_decoded(bytes: Seq<u8>) -> Seq<char>;

/// `encoding_rs::GBK.decode(bytes)`: GBK text, malformed sequences replaced
/// by U+FFFD (a leading byte-order mark selects its own encoding). Its
/// result is named `gbk_decoded`.
#[verifier::external_body]
fn gbk_decode(bytes: &[u8]) -> (s: String)
    ensures
        s@ == gbk_decoded(bytes@),
{
    encoding_rs::GBK.decode(bytes).0.into_owned()
}

/// `std::str::from_utf8`: the text of `bytes` where they are valid UTF-8.
#[verifier::external_body]
pub(crate) fn utf8_decode(bytes: &[u8]) -> (r: Option<String>)
    ensures
        r is Some <==> valid_utf8(bytes@),
        r matches Some(s) ==> s@ == decode_utf8(bytes@),
{
    match std::str::from_utf8(bytes) {
        Ok(s) => Some(s.to_string()),
        Err(_) => None,
    }
}

/// Whether a `Content-Type` names a GBK charset (gbk, gb2312 or gb18030),
/// in any ASCII case.
pub open spec fn names_gbk(content_type: Seq<char>) -> bool {
    let ct = ascii_lower_spec(content_type);
    contains_spec(ct, "gbk"@) || contains_spec(ct, "gb2312"@) || contains_spec(ct, "gb18030"@)
}

/// UTF-8 where the bytes are valid UTF-8, else GBK.
pub open spec fn console_text(bytes: Seq<u8>) -> Seq<char> {
    if valid_utf8(bytes) {
        decode_utf8(bytes)
    } else {
        gbk_decoded(bytes)
    }
}

/// The text of a reply: GBK when the `Content-Type` says so, else UTF-8
/// when the bytes are valid UTF-8, else GBK.
pub open spec fn decode_spec(bytes: Seq<u8>, content_type: Option<Seq<char>>) -> Seq<char> {
    let ct = match content_type {
        Some(c) => c,
        None => Seq::empty(),
    };
    if names_gbk(ct) {
        gbk_decoded(bytes)
    } else {
        console_text(bytes)
    }
}

/// The text of a reply body.
pub fn decode(bytes: &[u8], content_type: Option<&str>) -> (s: String)
    ensures
        s@ == decode_spec(
            bytes@,
            match content_type {
                Some(c) => Some(c@),
                None => None,
            },
        ),
{
    let ct = match content_type {
        Some(c) => ascii_lower(c),
        None => {
            assert(ascii_lower_spec(Seq::<char>::empty()) =~= Seq::<char>::empty());
            String::new()
        },
    };
    if contains(ct.as_str(), "gbk") || contains(ct.as_str(), "gb2312") || contains(
        ct.as_str(),
        "gb18030",
    ) {
        return gbk_decode(bytes);
    }
    decode_console(bytes)
}

/// The text of a console program's output (code page 936 on Chinese
/// Windows): UTF-8 where valid, else GBK.
pub fn decode_console(bytes: &[u8]) -> (s: String)
    ensures
        s@ == console_text(bytes@),
{
    match utf8_decode(bytes) {
        Some(s) => s,
        None => gbk_decode(bytes),
    }
}

} // verus!
