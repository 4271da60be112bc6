use vstd::prelude::*;
use vstd::utf8::{encode_utf8, is_ascii_chars, is_ascii_chars_encode_utf8};

verus! {

/// The character a byte stands for when a buffer is read one byte per
/// character (ISO 8859-1, which maps byte `b` to code point `b`).
pub open spec fn latin1(b: u8) -> char {
    b as char
}

/// Number of bytes before the first NUL in `bytes`, or all of them when
/// there is none.
pub open spec fn c_string_len(bytes: Seq<u8>) -> nat
    decreases bytes.len(),
{
    if bytes.len() == 0 || bytes[0] == 0 {
        0
    } else {
        1 + c_string_len(bytes.drop_first())
    }
}

/// The text of a NUL-terminated buffer: the bytes before the first NUL,
/// one character per byte.
pub open spec fn c_string_text(bytes: Seq<u8>) -> Seq<char> {
    bytes.take(c_string_len(bytes) as int).map_values(|b: u8| latin1(b))
}

/// Appends one character to a `String` (`String::push`).
#[verifier::external_body]
pub(crate) fn push_char(s: &mut String, c: char)
    ensures
        final(s)@ == old(s)@.push(c),
{
    s.push(c);
}

proof fn lemma_c_string_len_bounds(bytes: Seq<u8>)
    ensures
        c_string_len(bytes) <= bytes.len(),
        forall|j: int| 0 <= j < c_string_len(bytes) ==> bytes[j] != 0,
    decreases bytes.len(),
{
    if bytes.len() > 0 && bytes[0] != 0 {
        lemma_c_string_len_bounds(bytes.drop_first());
        assert forall|j: int| 0 <= j < c_string_len(bytes) implies bytes[j] != 0 by {
            if j > 0 {
                assert(bytes[j] == bytes.drop_first()[j - 1]);
            }
        }
    }
}

proof fn lemma_c_string_len(bytes: Seq<u8>, k: int)
    requires
        0 <= k <= bytes.len(),
        forall|j: int| 0 <= j < k ==> bytes[j] != 0,
        k == bytes.len() || bytes[k] == 0,
    ensures
        c_string_len(bytes) == k,
    decreases k,
{
    if k > 0 {
        lemma_c_string_len(bytes.drop_first(), k - 1);
    }
}

/// Reads a NUL-terminated byte buffer as text: every byte before the first
/// NUL becomes the character with that code point; the NUL and everything
/// after it is left out.
pub fn convert_result_to_string(x: &[u8]) -> (output: String)
    ensures
        output@ == c_string_text(x@),
        output@.len() <= x@.len(),
        forall|i: int| 0 <= i < output@.len() ==> output@[i] != '\0',
{
    let mut output = String::new();
    let mut i: usize = 0;
    while i < x.len()
        invariant
            i <= x@.len(),
            forall|j: int| 0 <= j < i ==> x@[j] != 0,
            output@ == x@.take(i as int).map_values(|b: u8| latin1(b)),
        ensures
            i <= x@.len(),
            forall|j: int| 0 <= j < i ==> x@[j] != 0,
            i == x@.len() || x@[i as int] == 0,
            output@ == x@.take(i as int).map_values(|b: u8| latin1(b)),
        decreases x@.len() - i,
    {
        if x[i] == 0 {
            break;
        }
        push_char(&mut output, x[i] as char);
        assert(x@.take(i + 1) =~= x@.take(i as int).push(x@[i as int]));
        assert(output@ =~= x@.take(i + 1).map_values(|b: u8| latin1(b)));
        i = i + 1;
    }
    proof {
        lemma_c_string_len(x@, i as int);
    }
    output
}

/// Reading the one-byte-per-character encoding of a text back gives the
/// text again, when the text holds no NUL and every character fits in a
/// byte.
pub proof fn lemma_latin1_text_round_trip(text: Seq<char>)
    requires
        forall|i: int| 0 <= i < text.len() ==> '\u{1}' <= #[trigger] text[i] <= '\u{ff}',
    ensures
        c_string_text(text.map_values(|c: char| c as u8)) == text,
{
    let bytes = text.map_values(|c: char| c as u8);
    assert forall|j: int| 0 <= j < text.len() implies bytes[j] != 0 && latin1(bytes[j]) == text[j] by {
        let c: char = text[j];
        assert(1 <= c as int <= 255);
        assert((c as u8) as int == c as int);
        assert(((c as u8) as char) as int == c as int);
    }
    lemma_c_string_len(bytes, text.len() as int);
    assert(c_string_text(bytes) =~= text);
}

/// When the bytes before the first NUL are ASCII, the UTF-8 bytes of the
/// text read from a buffer are exactly those bytes, and reading them again
/// gives the same text.
pub proof fn lemma_ascii_text_bytes(bytes: Seq<u8>)
    requires
        forall|i: int| 0 <= i < c_string_len(bytes) ==> bytes[i] < 0x80,
    ensures
        encode_utf8(c_string_text(bytes)) == bytes.take(c_string_len(bytes) as int),
        c_string_text(encode_utf8(c_string_text(bytes))) == c_string_text(bytes),
{
    let n = c_string_len(bytes) as int;
    lemma_c_string_len_bounds(bytes);
    let text = c_string_text(bytes);
    assert(is_ascii_chars(text));
    is_ascii_chars_encode_utf8(text);
    assert forall|i: int| 0 <= i < n implies (text[i] as u8) == bytes[i] by {
        let b: u8 = bytes[i];
        assert(((b as char) as u32) as u8 == b);
    }
    assert(encode_utf8(text) =~= bytes.take(n));
    let again = bytes.take(n);
    assert forall|j: int| 0 <= j < n implies again[j] != 0 by {}
    lemma_c_string_len(again, n);
    assert(c_string_text(again) =~= text);
}

/// The character of a decimal digit `d` (`'0'` to `'9'`).
pub open spec fn digit_char(d: nat) -> char
    recommends
        d < 10,
{
    (d + 48) as char
}

/// The decimal numeral of `n`, most significant digit first and without
/// leading zeros, as `to_string` prints an unsigned integer.
pub open spec fn decimal_digits(n: nat) -> Seq<char>
    decreases n,
{
    if n < 10 {
        seq![digit_char(n)]
    } else {
        decimal_digits(n / 10).push(digit_char(n % 10))
    }
}

/// The number a string of decimal digits denotes.
pub open spec fn decimal_value(s: Seq<char>) -> int
    decreases s.len(),
{
    if s.len() == 0 {
        0
    } else {
        decimal_value(s.drop_last()) * 10 + (s.last() as int - 48)
    }
}

/// Whether every character of `s` is one of `'0'` to `'9'`.
pub open spec fn all_digits(s: Seq<char>) -> bool {
    forall|i: int| 0 <= i < s.len() ==> '0' <= #[trigger] s[i] <= '9'
}

fn digit(d: u64) -> (c: char)
    requires
        d < 10,
    ensures
        c == digit_char(d as nat),
{
    let c: char = if d == 0 { '0' } else if d == 1 { '1' } else if d == 2 { '2' } else if d == 3 {
        '3'
    } else if d == 4 { '4' } else if d == 5 { '5' } else if d == 6 { '6' } else if d == 7 {
        '7'
    } else if d == 8 { '8' } else { '9' };
    c
}

fn push_decimal(s: &mut String, n: u64)
    ensures
        final(s)@ == old(s)@ + decimal_digits(n as nat),
    decreases n,
{
    if n >= 10 {
        push_decimal(s, n / 10);
    }
    push_char(s, digit(n % 10));
    assert(decimal_digits(n as nat) == if n < 10 {
        seq![digit_char(n as nat)]
    } else {
        decimal_digits((n / 10) as nat).push(digit_char((n % 10) as nat))
    });
}

/// The decimal numeral of `n`, as `n.to_string()` gives it.
pub fn decimal_string(n: u64) -> (s: String)
    ensures
        s@ == decimal_digits(n as nat),
{
    let mut s = String::new();
    push_decimal(&mut s, n);
    assert(s@ =~= decimal_digits(n as nat));
    s
}

/// A decimal numeral reads back as the number it was made from, holds only
/// digits, and has no leading zero unless the number is zero.
pub proof fn lemma_decimal_round_trip(n: nat)
    ensures
        decimal_value(decimal_digits(n)) == n,
        all_digits(decimal_digits(n)),
        decimal_digits(n).len() >= 1,
        n > 0 ==> decimal_digits(n)[0] != '0',
    decreases n,
{
    assert(digit_char(n % 10) as int == n % 10 + 48);
    if n < 10 {
        let d = decimal_digits(n);
        assert(d.drop_last() =~= Seq::<char>::empty());
        assert(decimal_value(d) == decimal_value(d.drop_last()) * 10 + (d.last() as int - 48));
        assert(decimal_value(d.drop_last()) == 0);
    } else {
        lemma_decimal_round_trip(n / 10);
        let d = decimal_digits(n);
        assert(d.drop_last() =~= decimal_digits(n / 10));
        assert(d.last() == digit_char(n % 10));
        assert(decimal_value(d) == decimal_value(d.drop_last()) * 10 + (d.last() as int - 48));
        assert(n == (n / 10) * 10 + n % 10);
    }
}

} // verus!
