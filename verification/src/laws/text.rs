//! Laws of texts: numerals, percent-encoding and white space.
use crate::encode::{encode_byte, encode_path, encode_query, encode_segment, encoded, percent_encode};
use crate::laws::{
    all_space, carries, digit, hex_digit, number, numeral, plain, plain_byte, space, unescaped,
};
use crate::text::{
    blank, chars_of, decimal, decimal_text, digit_char, digits_value, hex_char, hexadecimal,
    hexadecimal_text, is_blank, is_white_space, lemma_decimal_digits, parse_u32, read_u32, same_text,
    slice_chars, string_of, trim, trim_end, trim_start, trimmed, unsigned_digits, white_space,
};
use vstd::prelude::*;
use vstd::utf8::*;

verus! {

// ----- percent-encoding ------------------------------------------------------------------------

proof fn lemma_unescaped(bytes: Seq<u8>)
    ensures
        unescaped(percent_encode(bytes)) == Some(bytes),
    decreases bytes.len(),
{
    if bytes.len() == 0 {
        assert(bytes =~= Seq::empty());
    } else {
        let b = bytes[0];
        let rest = bytes.drop_first();
        let s = percent_encode(bytes);
        let tail = percent_encode(rest);
        lemma_unescaped(rest);
        assert(seq![b] + rest =~= bytes);
        assert(s == encode_byte(b) + tail);
        if plain_byte(b) {
            assert(s[0] == b as char);
            assert(s.skip(1) =~= tail);
            assert(plain(s[0]));
            assert(s[0] as u8 == b);
        } else {
            assert(s[0] == '%');
            assert(!plain('%'));
            assert(s.skip(3) =~= tail);
            assert(hex_digit(s[1]) == Some((b / 16) as nat));
            assert(hex_digit(s[2]) == Some((b % 16) as nat));
            assert(16 * (b / 16) + b % 16 == b);
        }
    }
}

/// What is encoded can be read back, from one form and no other.
pub proof fn lemma_carries(text: Seq<char>)
    ensures
        carries(encoded(text), text),
{
    lemma_unescaped(encode_utf8(text));
}

/// A text that was percent-encoded holds nothing that ends a path segment or a query value, and its
/// UTF-8 bytes can be read back from it.
pub proof fn law_encoding(s: &str, segment: String, path: String, query: String)
    requires
        call_ensures(encode_segment, (s,), segment),
        call_ensures(encode_path, (s,), path),
        call_ensures(encode_query, (s,), query),
    ensures
        carries(segment@, s@),
        carries(path@, s@),
        carries(query@, s@),
{
    lemma_carries(s@);
}

// ----- numerals --------------------------------------------------------------------------------

proof fn lemma_number(s: Seq<char>)
    requires
        forall|i: int| 0 <= i < s.len() ==> digit(#[trigger] s[i]),
    ensures
        number(s) == digits_value(s),
    decreases s.len(),
{
    if s.len() > 0 {
        let init = s.drop_last();
        assert forall|i: int| 0 <= i < init.len() implies digit(#[trigger] init[i]) by {
            assert(init[i] == s[i]);
        }
        lemma_number(init);
        assert(digit(s[s.len() - 1]));
    }
}

proof fn lemma_no_leading_zero(n: nat)
    ensures
        n > 0 ==> decimal(n)[0] != '0',
        decimal(n).len() > 0,
        decimal(n).len() > 1 ==> n > 0,
    decreases n,
{
    assert(n < 10 ==> digit_char(n) as u32 == 48 + n);
    if n >= 10 {
        lemma_no_leading_zero(n / 10);
        assert(decimal(n)[0] == decimal(n / 10)[0]);
    }
}

/// The numeral of a number is that number's.
pub proof fn lemma_numeral(n: nat)
    ensures
        numeral(decimal(n), n),
{
    lemma_decimal_digits(n);
    lemma_no_leading_zero(n);
    let s = decimal(n);
    assert forall|i: int| 0 <= i < s.len() implies digit(#[trigger] s[i]) by {
        assert('0' <= s[i] <= '9');
        lemma_digit(s[i]);
    }
    lemma_number(s);
}

proof fn lemma_digit(c: char)
    ensures
        digit(c) <==> '0' <= c <= '9',
{
}

/// Whether a text is the hexadecimal numeral of `n`: digits in lower case, and no leading zero.
pub open spec fn hex_numeral(s: Seq<char>, n: nat) -> bool {
    &&& s.len() > 0
    &&& forall|i: int|
        0 <= i < s.len() ==> digit(#[trigger] s[i]) || 'a' <= s[i] <= 'f'
    &&& s.len() > 1 ==> s[0] != '0'
    &&& hex_number(s) == n
}

/// The number that a run of hexadecimal digits stands for.
pub open spec fn hex_number(s: Seq<char>) -> nat
    decreases s.len(),
{
    if s.len() == 0 {
        0
    } else {
        16 * hex_number(s.drop_last()) + if s.last() <= '9' {
            (s.last() as nat - '0' as nat) as nat
        } else {
            (s.last() as nat - 'a' as nat + 10) as nat
        }
    }
}

/// The hexadecimal numeral of a number is that number's.
pub proof fn lemma_hex_numeral(n: nat)
    ensures
        hex_numeral(hexadecimal(n), n),
        n > 0 ==> hexadecimal(n)[0] != '0',
    decreases n,
{
    let d = n % 16;
    let c = hex_char(d);
    assert(c as u32 == if d < 10 { 48 + d } else { 87 + d });
    lemma_digit(c);
    let s = hexadecimal(n);
    if n < 16 {
        assert(s.drop_last() =~= Seq::empty());
        assert(hex_number(s.drop_last()) == 0);
    } else {
        lemma_hex_numeral(n / 16);
        let init = hexadecimal(n / 16);
        assert(s.drop_last() =~= init);
        assert(s[0] == init[0]);
        assert forall|i: int| 0 <= i < s.len() implies digit(#[trigger] s[i])
            || 'a' <= s[i] <= 'f' by {
            if i < init.len() {
                assert(s[i] == init[i]);
            }
        }
    }
}

/// Numbers are written as their numerals.
pub proof fn law_numerals(n: u64, decimal_form: String, m: u128, hexadecimal_form: String)
    requires
        call_ensures(decimal_text, (n,), decimal_form),
        call_ensures(hexadecimal_text, (m,), hexadecimal_form),
    ensures
        numeral(decimal_form@, n as nat),
        hex_numeral(hexadecimal_form@, m as nat),
{
    lemma_numeral(n as nat);
    lemma_hex_numeral(m as nat);
}

/// The digits of a numeral that is read, after an optional leading `+`.
pub open spec fn after_plus(s: Seq<char>) -> Seq<char> {
    if s.len() > 0 && s[0] == '+' {
        s.skip(1)
    } else {
        s
    }
}

/// Whether `r` is what reading `s` as a number gives: there must be digits only, after an optional
/// `+`, and 32 bits must hold what they stand for.
pub open spec fn read_as(s: Seq<char>, r: Option<u32>) -> bool {
    let digits = after_plus(s);
    let sound = digits.len() > 0 && (forall|i: int|
        0 <= i < digits.len() ==> digit(#[trigger] digits[i])) && number(digits) <= u32::MAX;
    match r {
        Some(n) => sound && n == number(digits),
        None => !sound,
    }
}

/// A number is read exactly where there is one, and is the number that the digits stand for.
pub proof fn law_reading_numbers(cs: Vec<char>, r: Option<u32>)
    requires
        call_ensures(read_u32, (&cs,), r),
    ensures
        read_as(cs@, r),
{
    lemma_parse(cs@);
}

/// Reading a number, in the notions of the laws.
pub proof fn lemma_parse(s: Seq<char>)
    ensures
        read_as(s, parse_u32(s)),
{
    let digits = after_plus(s);
    assert(unsigned_digits(s) =~= digits);
    assert forall|i: int| 0 <= i < digits.len() implies digit(#[trigger] digits[i]) == ('0'
        <= digits[i] <= '9') by {
        lemma_digit(digits[i]);
    }
    if forall|i: int| 0 <= i < digits.len() ==> digit(#[trigger] digits[i]) {
        lemma_number(digits);
    }
}

// ----- white space and characters --------------------------------------------------------------

proof fn lemma_space(c: char)
    ensures
        white_space(c) == space(c),
{
}

/// Being blank, in the notions of the laws.
pub proof fn lemma_blank(s: Seq<char>)
    ensures
        blank(s) == all_space(s),
{
    assert forall|i: int| 0 <= i < s.len() implies white_space(#[trigger] s[i]) == space(s[i]) by {
        lemma_space(s[i]);
    }
}

/// A text is blank where all of it is white space.
pub proof fn law_blank_texts(s: &str, r: bool, c: char, w: bool)
    requires
        call_ensures(is_blank, (s,), r),
        call_ensures(is_white_space, (c,), w),
    ensures
        r == all_space(s@),
        w == space(c),
{
    lemma_blank(s@);
    lemma_space(c);
}

/// Whether `part` is `s` without the white space at its ends.
pub open spec fn stripped(s: Seq<char>, part: Seq<char>) -> bool {
    exists|from: int, to: int|
        0 <= from <= to <= s.len() && part == #[trigger] s.subrange(from, to) && all_space(
            s.take(from),
        ) && all_space(s.skip(to)) && (part.len() > 0 ==> !space(part[0]) && !space(part.last()))
}

proof fn lemma_trim_start(s: Seq<char>) -> (from: int)
    ensures
        0 <= from <= s.len(),
        trim_start(s) == s.skip(from),
        all_space(s.take(from)),
        from < s.len() ==> !space(s[from]),
    decreases s.len(),
{
    if s.len() > 0 && white_space(s[0]) {
        let tail = s.drop_first();
        let k = lemma_trim_start(tail);
        lemma_space(s[0]);
        assert(tail.skip(k) =~= s.skip(k + 1));
        assert forall|i: int| 0 <= i < s.take(k + 1).len() implies space(
            #[trigger] s.take(k + 1)[i],
        ) by {
            if i > 0 {
                assert(tail.take(k)[i - 1] == s[i]);
            }
        }
        k + 1
    } else {
        assert(s.skip(0) =~= s);
        if s.len() > 0 {
            lemma_space(s[0]);
        }
        0
    }
}

proof fn lemma_trim_end(s: Seq<char>) -> (to: int)
    ensures
        0 <= to <= s.len(),
        trim_end(s) == s.take(to),
        all_space(s.skip(to)),
        to > 0 ==> !space(s[to - 1]),
    decreases s.len(),
{
    if s.len() > 0 && white_space(s.last()) {
        let init = s.drop_last();
        let k = lemma_trim_end(init);
        lemma_space(s.last());
        assert(init.take(k) =~= s.take(k));
        assert forall|i: int| 0 <= i < s.skip(k).len() implies space(#[trigger] s.skip(k)[i]) by {
            if i < init.skip(k).len() {
                assert(init.skip(k)[i] == s[i + k]);
            }
        }
        k
    } else {
        assert(s.take(s.len() as int) =~= s);
        if s.len() > 0 {
            lemma_space(s.last());
        }
        s.len() as int
    }
}

/// Trimming, in the notions of the laws.
pub proof fn lemma_trim(s: Seq<char>)
    ensures
        stripped(s, trim(s)),
{
    let from = lemma_trim_start(s);
    let rest = s.skip(from);
    let to = lemma_trim_end(rest);
    let part = rest.take(to);
    if from < s.len() && to == 0 {
        // All that is left would be white space, yet it begins with something else.
        assert(rest.skip(0)[0] == s[from]);
    }
    assert(part =~= s.subrange(from, from + to));
    assert(rest.skip(to) =~= s.skip(from + to));
    assert(part.len() > 0 ==> part[0] == s[from] && part.last() == rest[to - 1]);
}

/// Trimming takes away the white space at both ends, all of it and nothing else.
pub proof fn law_trimming(s: &str, r: Vec<char>)
    requires
        call_ensures(trimmed, (s,), r),
    ensures
        stripped(s@, r@),
{
    lemma_trim(s@);
}

/// A text and its characters are one and the same.
pub proof fn law_characters(
    s: &str,
    other: &str,
    cs: Vec<char>,
    back: String,
    from: usize,
    to: usize,
    part: Vec<char>,
    same: bool,
)
    requires
        from <= to <= s@.len(),
        call_ensures(chars_of, (s,), cs),
        call_ensures(string_of, (&cs,), back),
        call_ensures(slice_chars, (&cs, from, to), part),
        call_ensures(same_text, (s, other), same),
    ensures
        cs@ == s@,
        back@ == s@,
        part@.len() == to - from,
        forall|i: int| 0 <= i < part@.len() ==> #[trigger] part@[i] == s@[from + i],
        same <==> s@ == other@,
{
}

} // verus!
