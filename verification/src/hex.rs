//! Hexadecimal text, as it is carried in the tags of a relay message.
//!
//! Transactions travel as lower-case hexadecimal with two digits per byte;
//! a network magic is read in either case. The model of a text is its
//! sequence of characters, the model of binary data its sequence of bytes.

use vstd::prelude::*;

verus! {

/// One of `0`-`9` or `a`-`f`.
pub open spec fn is_lower_digit(c: char) -> bool {
    ('0' <= c && c <= '9') || ('a' <= c && c <= 'f')
}

/// A hexadecimal digit in either case.
pub open spec fn is_digit(c: char) -> bool {
    is_lower_digit(c) || ('A' <= c && c <= 'F')
}

/// The number that a hexadecimal digit stands for.
pub open spec fn digit_value(c: char) -> int {
    if '0' <= c && c <= '9' {
        c as int - '0' as int
    } else if 'a' <= c && c <= 'f' {
        c as int - 'a' as int + 10
    } else {
        c as int - 'A' as int + 10
    }
}

/// The lower-case digit that stands for `n`, for `n` below sixteen.
pub open spec fn lower_digit(n: int) -> char {
    if n < 10 {
        (n + '0' as int) as char
    } else {
        (n - 10 + 'a' as int) as char
    }
}

/// Lower-case hexadecimal text: an even number of characters, each of them
/// one of `0`-`9` or `a`-`f`.
pub open spec fn is_lower_hex(s: Seq<char>) -> bool {
    &&& s.len() % 2 == 0
    &&& forall|i: int| 0 <= i < s.len() ==> is_lower_digit(#[trigger] s[i])
}

/// Hexadecimal text in either case: an even number of characters, each of
/// them a hexadecimal digit.
pub open spec fn is_hex(s: Seq<char>) -> bool {
    &&& s.len() % 2 == 0
    &&& forall|i: int| 0 <= i < s.len() ==> is_digit(#[trigger] s[i])
}

/// The byte that the two digits at `2 * i` and `2 * i + 1` stand for.
pub open spec fn byte_at(s: Seq<char>, i: int) -> u8 {
    (16 * digit_value(s[2 * i]) + digit_value(s[2 * i + 1])) as u8
}

/// The bytes that hexadecimal text stands for, one for each pair of digits,
/// the first digit of a pair counting sixteen times the second.
pub open spec fn hex_bytes(s: Seq<char>) -> Seq<u8> {
    Seq::new(s.len() / 2, |i: int| byte_at(s, i))
}

/// The digit at position `i` of the text that stands for `b`.
pub open spec fn digit_at(b: Seq<u8>, i: int) -> char {
    if i % 2 == 0 {
        lower_digit(b[i / 2] as int / 16)
    } else {
        lower_digit(b[i / 2] as int % 16)
    }
}

/// The lower-case hexadecimal text that stands for `b`.
pub open spec fn hex_text(b: Seq<u8>) -> Seq<char> {
    Seq::new(2 * b.len(), |i: int| digit_at(b, i))
}

/// Decoding the text of some bytes gives the bytes back.
pub proof fn lemma_bytes_of_text(b: Seq<u8>)
    ensures
        is_lower_hex(hex_text(b)),
        hex_bytes(hex_text(b)) == b,
{
    assert(hex_bytes(hex_text(b)) =~= b);
}

/// Encoding the bytes of lower-case hexadecimal text gives the text back.
pub proof fn lemma_text_of_bytes(s: Seq<char>)
    requires
        is_lower_hex(s),
    ensures
        hex_text(hex_bytes(s)) == s,
{
    assert(hex_text(hex_bytes(s)) =~= s);
}

/// The value of a lower-case digit given as a byte of text.
fn lower_value(b: u8) -> (r: Option<u8>)
    ensures
        r is Some <==> is_lower_digit(b as char),
        r matches Some(v) ==> v as int == digit_value(b as char),
{
    if 0x30 <= b && b <= 0x39 {
        Some(b - 0x30)
    } else if 0x61 <= b && b <= 0x66 {
        Some(b - 0x61 + 10)
    } else {
        None
    }
}

/// The value of a digit in either case given as a byte of text.
fn value(b: u8) -> (r: Option<u8>)
    ensures
        r is Some <==> is_digit(b as char),
        r matches Some(v) ==> v as int == digit_value(b as char),
{
    if 0x41 <= b && b <= 0x46 {
        Some(b - 0x41 + 10)
    } else {
        lower_value(b)
    }
}

/// The text of one lower-case digit.
fn digit_str(n: u8) -> (r: &'static str)
    requires
        n < 16,
    ensures
        r@ == seq![lower_digit(n as int)],
{
    let digits = "0123456789abcdef";
    proof {
        reveal_strlit("0123456789abcdef");
    }
    let at = n as usize;
    digits.substring_ascii(at, at + 1)
}

/// Writes bytes as lower-case hexadecimal text, two digits for each byte.
pub fn encode(bytes: &[u8]) -> (text: String)
    ensures
        text@ == hex_text(bytes@),
{
    let mut text = String::new();
    let mut i: usize = 0;
    while i < bytes.len()
        invariant
            i <= bytes.len(),
            text@ == hex_text(bytes@.take(i as int)),
        decreases bytes.len() - i,
    {
        let b = bytes[i];
        text.append(digit_str(b / 16));
        text.append(digit_str(b % 16));
        i += 1;
    }
    text
}

/// Whether a text is lower-case hexadecimal: the test a publisher makes of
/// each transaction before anything is sent.
pub fn validate(s: &str) -> (ok: bool)
    ensures
        ok == is_lower_hex(s@),
{
    read(s, true).is_some()
}

/// Reads lower-case hexadecimal text. Text of odd length, or with any
/// character other than `0`-`9` and `a`-`f`, stands for nothing.
pub fn decode(s: &str) -> (r: Option<Vec<u8>>)
    ensures
        r is Some <==> is_lower_hex(s@),
        r matches Some(b) ==> b@ == hex_bytes(s@),
{
    read(s, true)
}

/// Reads hexadecimal text whose digits may be in either case.
pub fn decode_any_case(s: &str) -> (r: Option<Vec<u8>>)
    ensures
        r is Some <==> is_hex(s@),
        r matches Some(b) ==> b@ == hex_bytes(s@),
{
    read(s, false)
}

/// The digits that a reader accepts: lower case only, or either case.
spec fn accepted(c: char, lower_only: bool) -> bool {
    if lower_only {
        is_lower_digit(c)
    } else {
        is_digit(c)
    }
}

fn read(s: &str, lower_only: bool) -> (r: Option<Vec<u8>>)
    ensures
        r is Some <==> (if lower_only {
            is_lower_hex(s@)
        } else {
            is_hex(s@)
        }),
        r matches Some(b) ==> b@ == hex_bytes(s@),
{
    if !s.is_ascii() {
        return None;
    }
    let raw = s.as_bytes();
    proof {
        vstd::string::is_ascii_spec_bytes(s);
    }
    let n = raw.len();
    if n % 2 != 0 {
        return None;
    }
    let mut out: Vec<u8> = Vec::new();
    let mut i: usize = 0;
    while i < n
        invariant
            n == raw@.len(),
            n == s@.len(),
            n % 2 == 0,
            i % 2 == 0,
            i <= n,
            forall|k: int|
                #![trigger s@[k]]
                0 <= k < n ==> raw@[k] == s@[k] as u8 && '\0' <= s@[k] <= '\u{7f}',
            forall|k: int| 0 <= k < i ==> accepted(#[trigger] s@[k], lower_only),
            out@ == hex_bytes(s@.take(i as int)),
        decreases n - i,
    {
        let hi = if lower_only {
            lower_value(raw[i])
        } else {
            value(raw[i])
        };
        let lo = if lower_only {
            lower_value(raw[i + 1])
        } else {
            value(raw[i + 1])
        };
        assert(raw@[i as int] as char == s@[i as int]);
        assert(raw@[i + 1] as char == s@[i + 1]);
        match (hi, lo) {
            (Some(h), Some(l)) => {
                out.push(h * 16 + l);
            },
            _ => {
                return None;
            },
        }
        i += 2;
    }
    Some(out)
}

} // verus!
