//! Percent-encoding of the parts of a URL.
use vstd::prelude::*;
use vstd::utf8::*;

verus! {

/// The bytes that stand for themselves: letters, digits and `-`, `_`, `.`, `~`.
pub open spec fn unreserved(b: u8) -> bool {
    ||| 'A' as u8 <= b <= 'Z' as u8
    ||| 'a' as u8 <= b <= 'z' as u8
    ||| '0' as u8 <= b <= '9' as u8
    ||| b == '-' as u8
    ||| b == '_' as u8
    ||| b == '.' as u8
    ||| b == '~' as u8
}

/// The characters of those bytes.
pub open spec fn unreserved_char(c: char) -> bool {
    c <= '\u{7f}' && unreserved(c as u8)
}

/// The character of a digit below sixteen, in upper case.
pub open spec fn upper_hex(d: u8) -> char {
    if d < 10 {
        ('0' as u8 + d) as u8 as char
    } else {
        ('A' as u8 + (d - 10)) as u8 as char
    }
}

/// The encoding of one byte: itself, or `%` and its two hexadecimal digits.
pub open spec fn encode_byte(b: u8) -> Seq<char> {
    if unreserved(b) {
        seq![b as char]
    } else {
        seq!['%', upper_hex(b / 16), upper_hex(b % 16)]
    }
}

/// The encoding of a sequence of bytes.
pub open spec fn percent_encode(bytes: Seq<u8>) -> Seq<char>
    decreases bytes.len(),
{
    if bytes.len() == 0 {
        Seq::empty()
    } else {
        encode_byte(bytes[0]) + percent_encode(bytes.drop_first())
    }
}

/// The encoding of a text: that of its UTF-8 bytes.
pub open spec fn encoded(s: Seq<char>) -> Seq<char> {
    percent_encode(encode_utf8(s))
}

fn upper_hex_digit(d: u8) -> (c: char)
    requires
        d < 16,
    ensures
        c == upper_hex(d),
{
    if d < 10 {
        (48 + d) as char
    } else {
        (65 + (d - 10)) as char
    }
}

/// Percent-encodes a path segment or a query value: every byte of its UTF-8 form but the letters,
/// the digits and `-`, `_`, `.`, `~`.
pub fn encode_segment(s: &str) -> (r: String)
    ensures
        r@ == encoded(s@),
{
    let bytes = s.as_bytes();
    let mut out = String::new();
    let mut i: usize = 0;
    assert(bytes@.skip(0) =~= bytes@);
    assert(out@ + percent_encode(bytes@) =~= percent_encode(bytes@));
    while i < bytes.len()
        invariant
            i <= bytes@.len(),
            out@ + percent_encode(bytes@.skip(i as int)) == percent_encode(bytes@),
        decreases bytes@.len() - i,
    {
        let b = bytes[i];
        let ghost before = out@;
        let ghost rest = bytes@.skip(i as int);
        if (65 <= b && b <= 90) || (97 <= b && b <= 122) || (48 <= b && b <= 57) || b == 45 || b
            == 95 || b == 46 || b == 126 {
            out.push(b as char);
        } else {
            out.push('%');
            out.push(upper_hex_digit(b / 16));
            out.push(upper_hex_digit(b % 16));
        }
        assert(out@ =~= before + encode_byte(b));
        assert(rest[0] == b);
        assert(rest.drop_first() =~= bytes@.skip(i + 1));
        assert(before + (encode_byte(b) + percent_encode(bytes@.skip(i + 1))) =~= out@
            + percent_encode(bytes@.skip(i + 1)));
        i += 1;
    }
    assert(bytes@.skip(bytes@.len() as int) =~= Seq::empty());
    assert(out@ + percent_encode(Seq::empty()) =~= out@);
    out
}

/// Percent-encodes a path parameter, so that an id with `/`, spaces and the like stays one segment.
pub fn encode_path(segment: &str) -> (r: String)
    ensures
        r@ == encoded(segment@),
{
    encode_segment(segment)
}

/// Percent-encodes the value of a query parameter.
pub fn encode_query(value: &str) -> (r: String)
    ensures
        r@ == encoded(value@),
{
    encode_segment(value)
}

// ----- laws ------------------------------------------------------------------------------------

/// The value of a hexadecimal digit in upper case.
pub open spec fn hex_value(c: char) -> Option<u8> {
    if '0' <= c <= '9' {
        Some((c as u8 - '0' as u8) as u8)
    } else if 'A' <= c <= 'F' {
        Some((c as u8 - 'A' as u8 + 10) as u8)
    } else {
        None
    }
}

/// What a percent-encoded text stands for.
pub open spec fn percent_decode(s: Seq<char>) -> Option<Seq<u8>>
    decreases s.len(),
{
    if s.len() == 0 {
        Some(Seq::empty())
    } else if s[0] == '%' {
        if s.len() < 3 {
            None
        } else {
            match (hex_value(s[1]), hex_value(s[2]), percent_decode(s.skip(3))) {
                (Some(high), Some(low), Some(rest)) => Some(
                    seq![(high * 16 + low) as u8] + rest,
                ),
                _ => None,
            }
        }
    } else if s[0] <= '\u{7f}' {
        match percent_decode(s.skip(1)) {
            Some(rest) => Some(seq![s[0] as u8] + rest),
            None => None,
        }
    } else {
        None
    }
}

/// Decoding gives back the bytes that were encoded.
pub proof fn law_decode_encode(bytes: Seq<u8>)
    ensures
        percent_decode(percent_encode(bytes)) == Some(bytes),
    decreases bytes.len(),
{
    if bytes.len() > 0 {
        let b = bytes[0];
        let rest = bytes.drop_first();
        let tail = percent_encode(rest);
        let s = percent_encode(bytes);
        law_decode_encode(rest);
        assert(seq![b] + rest =~= bytes);
        if unreserved(b) {
            assert(s.skip(1) =~= tail);
            assert(s[0] == b as char);
            assert(s[0] as u8 == b);
        } else {
            assert(s.skip(3) =~= tail);
            assert(s[1] == upper_hex(b / 16) && s[2] == upper_hex(b % 16));
            assert(hex_value(s[1]) == Some((b / 16) as u8));
            assert(hex_value(s[2]) == Some((b % 16) as u8));
            assert((b / 16) * 16 + b % 16 == b);
        }
    } else {
        assert(bytes =~= Seq::empty());
    }
}

/// Two texts with the same encoding are the same text: an id survives the way into a URL and out
/// of it.
pub proof fn law_encoding_is_injective(a: Seq<char>, b: Seq<char>)
    requires
        encoded(a) == encoded(b),
    ensures
        a == b,
{
    law_decode_encode(encode_utf8(a));
    law_decode_encode(encode_utf8(b));
    encode_utf8_decode_utf8(a);
    encode_utf8_decode_utf8(b);
}

/// An encoded text holds unreserved characters and `%` only, so nothing in it can end a path
/// segment or a query value.
pub proof fn law_encoded_is_url_safe(s: Seq<char>)
    ensures
        forall|i: int|
            0 <= i < encoded(s).len() ==> {
                let c = #[trigger] encoded(s)[i];
                c == '%' || unreserved_char(c)
            },
{
    lemma_percent_encode_is_url_safe(encode_utf8(s));
}

proof fn lemma_percent_encode_is_url_safe(bytes: Seq<u8>)
    ensures
        forall|i: int|
            0 <= i < percent_encode(bytes).len() ==> {
                let c = #[trigger] percent_encode(bytes)[i];
                c == '%' || unreserved_char(c)
            },
    decreases bytes.len(),
{
    if bytes.len() > 0 {
        let head = encode_byte(bytes[0]);
        let tail = percent_encode(bytes.drop_first());
        lemma_percent_encode_is_url_safe(bytes.drop_first());
        assert forall|i: int| 0 <= i < percent_encode(bytes).len() implies {
            let c = #[trigger] percent_encode(bytes)[i];
            c == '%' || unreserved_char(c)
        } by {
            if i < head.len() {
                assert(percent_encode(bytes)[i] == head[i]);
            } else {
                assert(percent_encode(bytes)[i] == tail[i - head.len()]);
            }
        }
    }
}

/// A text of unreserved characters is encoded as it stands.
pub proof fn law_unreserved_text_is_unchanged(s: Seq<char>)
    requires
        forall|i: int| 0 <= i < s.len() ==> unreserved_char(#[trigger] s[i]),
    ensures
        encoded(s) == s,
{
    assert forall|i: int| 0 <= i < s.len() implies '\0' <= #[trigger] s[i] <= '\u{7f}' by {
        lemma_unreserved_char_is_ascii(s[i]);
    }
    is_ascii_chars_encode_utf8(s);
    let bytes = encode_utf8(s);
    assert forall|i: int| 0 <= i < bytes.len() implies unreserved(#[trigger] bytes[i]) by {
        assert(s[i] as u8 == bytes[i]);
    }
    lemma_unreserved_bytes(bytes);
    assert(encoded(s) =~= s);
}

proof fn lemma_unreserved_char_is_ascii(c: char)
    requires
        unreserved_char(c),
    ensures
        '\0' <= c <= '\u{7f}',
{
}

proof fn lemma_unreserved_bytes(bytes: Seq<u8>)
    requires
        forall|i: int| 0 <= i < bytes.len() ==> unreserved(#[trigger] bytes[i]),
    ensures
        percent_encode(bytes).len() == bytes.len(),
        forall|i: int| 0 <= i < bytes.len() ==> #[trigger] percent_encode(bytes)[i] == bytes[i] as char,
    decreases bytes.len(),
{
    if bytes.len() > 0 {
        let tail = bytes.drop_first();
        assert forall|i: int| 0 <= i < tail.len() implies unreserved(#[trigger] tail[i]) by {
            assert(tail[i] == bytes[i + 1]);
        }
        lemma_unreserved_bytes(tail);
        assert forall|i: int| 0 <= i < bytes.len() implies #[trigger] percent_encode(bytes)[i]
            == bytes[i] as char by {
            if i > 0 {
                assert(percent_encode(bytes)[i] == percent_encode(tail)[i - 1]);
            }
        }
    }
}

} // verus!
