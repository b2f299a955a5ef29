//! Small text-building helpers with exact specifications.

use vstd::prelude::*;
use vstd::string::*;

verus! {

/// The character for the decimal digit `d`.
pub open spec fn digit_char(d: nat) -> char {
    ((d + 48) as u8) as char
}

/// Decimal rendering of a natural number, without leading zeros.
pub open spec fn decimal(n: nat) -> Seq<char>
    decreases n,
{
    if n < 10 {
        seq![digit_char(n)]
    } else {
        decimal(n / 10).push(digit_char(n % 10))
    }
}

/// Relies on String::push: the character is appended at the end.
#[verifier::external_body]
pub(crate) fn push_char(s: &mut String, c: char)
    ensures
        final(s)@ == old(s)@.push(c),
{
    s.push(c)
}

/// Appends the decimal rendering of `n` to `s`.
pub fn push_decimal(s: &mut String, n: u128)
    ensures
        final(s)@ == old(s)@ + decimal(n as nat),
    decreases n,
{
    if n >= 10 {
        push_decimal(s, n / 10);
    }
    let d: u8 = (n % 10) as u8;
    push_char(s, (d + 48) as char);
    assert(final(s)@ =~= old(s)@ + decimal(n as nat));
}


/// What `std::str::from_utf8` gives for a byte sequence: the decoded text,
/// or the rendering of its decoding error.
pub uninterp spec fn utf8_decode(b: Seq<u8>) -> Result<Seq<char>, Seq<char>>;

/// Relies on std::str::from_utf8, and on the `Display` of its `Utf8Error`:
/// the text, or the error's message, depends on the bytes alone.
#[verifier::external_body]
pub(crate) fn decode_utf8(b: &[u8]) -> (r: Result<String, String>)
    ensures
        match r {
            Ok(t) => utf8_decode(b@) == Ok::<Seq<char>, Seq<char>>(t@),
            Err(m) => utf8_decode(b@) == Err::<Seq<char>, Seq<char>>(m@),
        },
{
    match std::str::from_utf8(b) {
        Ok(t) => Ok(t.to_string()),
        Err(e) => Err(e.to_string()),
    }
}

/// What the `Debug` format of a `str` gives: the text quoted and escaped.
pub uninterp spec fn debug_text(s: Seq<char>) -> Seq<char>;

/// Relies on `<str as Debug>::fmt`: the quoted form depends on the text alone.
#[verifier::external_body]
pub(crate) fn debug_quoted(s: &str) -> (r: String)
    ensures
        r@ == debug_text(s@),
{
    format!("{:?}", s)
}

/// Whether `c` has Unicode's `White_Space` property.
pub uninterp spec fn white_space(c: char) -> bool;

/// Relies on char::is_whitespace: the answer depends on the character alone.
#[verifier::external_body]
pub(crate) fn char_is_whitespace(c: char) -> (r: bool)
    ensures
        r == white_space(c),
{
    c.is_whitespace()
}

/// `u8::is_ascii_whitespace`: space, tab, line feed, form feed, carriage return.
pub open spec fn ascii_white_space(b: u8) -> bool {
    b == 32 || b == 9 || b == 10 || b == 12 || b == 13
}

/// Whether `b` is ASCII whitespace in the sense of `u8::is_ascii_whitespace`.
pub fn is_ascii_white_space(b: u8) -> (r: bool)
    ensures
        r == ascii_white_space(b),
{
    b == 32 || b == 9 || b == 10 || b == 12 || b == 13
}

/// The numbers of `b`, separated by `", "`.
pub open spec fn joined_numbers(b: Seq<u8>) -> Seq<char>
    decreases b.len(),
{
    if b.len() == 0 {
        Seq::empty()
    } else if b.len() == 1 {
        decimal(b[0] as nat)
    } else {
        joined_numbers(b.drop_last()) + seq![',', ' '] + decimal(b.last() as nat)
    }
}

/// The `Debug` format of a byte sequence: `[104, 105]`.
pub open spec fn bytes_debug(b: Seq<u8>) -> Seq<char> {
    seq!['['] + joined_numbers(b) + seq![']']
}

/// Appends the `Debug` format of `b` to `s`.
pub fn push_bytes_debug(s: &mut String, b: &[u8])
    ensures
        final(s)@ == old(s)@ + bytes_debug(b@),
{
    push_char(s, '[');
    let mut i: usize = 0;
    while i < b.len()
        invariant
            i <= b@.len(),
            s@ == old(s)@ + seq!['['] + joined_numbers(b@.subrange(0, i as int)),
        decreases b@.len() - i,
    {
        if i > 0 {
            push_char(s, ',');
            push_char(s, ' ');
        }
        push_decimal(s, b[i] as u128);
        proof {
            let next = b@.subrange(0, i + 1);
            assert(next.drop_last() =~= b@.subrange(0, i as int));
            if i == 0 {
                assert(next.len() == 1);
            }
            assert(s@ =~= old(s)@ + seq!['['] + joined_numbers(next));
        }
        i = i + 1;
    }
    push_char(s, ']');
    assert(b@.subrange(0, b@.len() as int) =~= b@);
    assert(s@ =~= old(s)@ + bytes_debug(b@));
}

} // verus!
