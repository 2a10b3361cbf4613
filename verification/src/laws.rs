//! What the operations of the library are for, said of the operations themselves.
//!
//! A law here speaks of values that operations return: `call_ensures(f, args, r)` says that `r` is
//! what `f` gives on `args`. What the values must satisfy is said in the notions of this module,
//! which no operation is defined by.
use crate::json::{json_of, Json};
use serde_json::Value;
use vstd::prelude::*;
use vstd::utf8::*;

pub mod answers;
pub mod channel;
pub mod client;
pub mod copies;
pub mod events;
pub mod pipelines;
pub mod requests;
pub mod retries;
pub mod text;
pub mod uploads;

verus! {

// ----- documents -------------------------------------------------------------------------------

/// A string that may be absent, as the member of a document.
pub open spec fn text_doc(text: Option<String>) -> Option<Json> {
    match text {
        Some(t) => Some(Json::Str(t@)),
        None => None,
    }
}

/// A count that may be absent, as the member of a document.
pub open spec fn count_doc(n: Option<u32>) -> Option<Json> {
    match n {
        Some(k) => Some(Json::Int(k as int)),
        None => None,
    }
}

/// A value that may be absent, as the member of a document.
pub open spec fn value_doc(value: Option<Value>) -> Option<Json> {
    match value {
        Some(v) => Some(json_of(v)),
        None => None,
    }
}

/// Whether a document is the object that holds each text under its field.
pub open spec fn holds_texts(doc: Json, fields: Map<Seq<char>, String>) -> bool {
    doc matches Json::Object(members) && members.dom() == fields.dom() && forall|k: Seq<char>|
        fields.contains_key(k) ==> #[trigger] members[k] == Json::Str(fields[k]@)
}

/// Whether a document is the object that holds each value under its field.
pub open spec fn holds_values(doc: Json, fields: Map<Seq<char>, Value>) -> bool {
    doc matches Json::Object(members) && members.dom() == fields.dom() && forall|k: Seq<char>|
        fields.contains_key(k) ==> #[trigger] members[k] == json_of(fields[k])
}

/// Whether a document is the array of the given strings, in their order.
pub open spec fn lists_texts(doc: Json, texts: Seq<String>) -> bool {
    doc matches Json::Array(items) && items.len() == texts.len() && forall|i: int|
        0 <= i < items.len() ==> #[trigger] items[i] == Json::Str(texts[i]@)
}

/// Whether a document is the array of the given values, in their order.
pub open spec fn lists_values(doc: Json, values: Seq<Value>) -> bool {
    doc matches Json::Array(items) && items.len() == values.len() && forall|i: int|
        0 <= i < items.len() ==> #[trigger] items[i] == json_of(values[i])
}

// ----- numerals --------------------------------------------------------------------------------

/// Whether a character is a decimal digit.
pub open spec fn digit(c: char) -> bool {
    c == '0' || c == '1' || c == '2' || c == '3' || c == '4' || c == '5' || c == '6' || c == '7'
        || c == '8' || c == '9'
}

/// The number that a run of decimal digits stands for.
pub open spec fn number(s: Seq<char>) -> nat
    decreases s.len(),
{
    if s.len() == 0 {
        0
    } else {
        10 * number(s.drop_last()) + (s.last() as nat - '0' as nat) as nat
    }
}

/// Whether a text is the decimal numeral of `n`: digits only, and no leading zero.
pub open spec fn numeral(s: Seq<char>, n: nat) -> bool {
    &&& s.len() > 0
    &&& forall|i: int| 0 <= i < s.len() ==> digit(#[trigger] s[i])
    &&& s.len() > 1 ==> s[0] != '0'
    &&& number(s) == n
}

// ----- percent-encoding ------------------------------------------------------------------------

/// Whether a byte stands for itself in a URL: an ASCII letter, a digit, or one of `-._~`.
pub open spec fn plain_byte(b: u8) -> bool {
    65 <= b <= 90 || 97 <= b <= 122 || 48 <= b <= 57 || b == 45 || b == 46 || b == 95 || b == 126
}

/// Whether a character is that of such a byte.
pub open spec fn plain(c: char) -> bool {
    c <= '\u{7f}' && plain_byte(c as u8)
}

/// The value of a hexadecimal digit in upper case.
pub open spec fn hex_digit(c: char) -> Option<nat> {
    if '0' <= c <= '9' {
        Some((c as nat - '0' as nat) as nat)
    } else if 'A' <= c <= 'F' {
        Some((c as nat - 'A' as nat + 10) as nat)
    } else {
        None
    }
}

/// The bytes that an escaped text stands for. A byte that stands for itself is not escaped, and any
/// other is written as `%` and two hexadecimal digits in upper case.
pub open spec fn unescaped(s: Seq<char>) -> Option<Seq<u8>>
    decreases s.len(),
{
    if s.len() == 0 {
        Some(Seq::empty())
    } else if plain(s[0]) {
        match unescaped(s.skip(1)) {
            Some(rest) => Some(seq![s[0] as u8] + rest),
            None => None,
        }
    } else if s[0] == '%' && s.len() >= 3 {
        match (hex_digit(s[1]), hex_digit(s[2]), unescaped(s.skip(3))) {
            (Some(high), Some(low), Some(rest)) => {
                let b = (16 * high + low) as u8;
                if plain_byte(b) {
                    None
                } else {
                    Some(seq![b] + rest)
                }
            },
            _ => None,
        }
    } else {
        None
    }
}

/// Whether `s` is the one form in which a text travels as part of a URL.
pub open spec fn carries(s: Seq<char>, text: Seq<char>) -> bool {
    unescaped(s) == Some(encode_utf8(text))
}

// ----- white space -----------------------------------------------------------------------------

/// Whether a character is white space, as Unicode has it.
pub open spec fn space(c: char) -> bool {
    c == '\u{9}' || c == '\u{a}' || c == '\u{b}' || c == '\u{c}' || c == '\u{d}' || c == '\u{20}'
        || c == '\u{85}' || c == '\u{a0}' || c == '\u{1680}' || '\u{2000}' <= c <= '\u{200a}' || c
        == '\u{2028}' || c == '\u{2029}' || c == '\u{202f}' || c == '\u{205f}' || c == '\u{3000}'
}

/// Whether a text holds nothing but white space.
pub open spec fn all_space(s: Seq<char>) -> bool {
    forall|i: int| 0 <= i < s.len() ==> space(#[trigger] s[i])
}

} // verus!
