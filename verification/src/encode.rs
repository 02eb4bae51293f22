//! Percent-encoding of a term for use in a URL path segment or query value,
//! and the decoding that undoes it.

use crate::text::{push_char, string_from_utf8};
use vstd::prelude::*;
use vstd::string::*;
use vstd::utf8::*;

verus! {

/// The characters that are never escaped: ASCII letters and digits, `-`, `_`,
/// `.` and `~`.
pub open spec fn is_unreserved(c: char) -> bool {
    ||| 'a' <= c <= 'z'
    ||| 'A' <= c <= 'Z'
    ||| '0' <= c <= '9'
    ||| c == '-'
    ||| c == '_'
    ||| c == '.'
    ||| c == '~'
}

/// The upper-case hexadecimal digit for `n`.
pub open spec fn hex_digit(n: int) -> char
    recommends
        0 <= n < 16,
{
    if n < 10 {
        ('0' as int + n) as char
    } else {
        ('A' as int + n - 10) as char
    }
}

/// `%` followed by the two upper-case hexadecimal digits of `b`.
pub open spec fn escape_byte(b: u8) -> Seq<char> {
    seq!['%', hex_digit(b as int / 16), hex_digit(b as int % 16)]
}

/// Every byte of `bytes` escaped, in order.
pub open spec fn escape_bytes(bytes: Seq<u8>) -> Seq<char>
    decreases bytes.len(),
{
    if bytes.len() == 0 {
        Seq::empty()
    } else {
        escape_byte(bytes[0]) + escape_bytes(bytes.drop_first())
    }
}

/// What one character of the input becomes: itself if unreserved, `%20` for
/// a space, and otherwise the escaped bytes of its UTF-8 encoding.
pub open spec fn encode_char(c: char) -> Seq<char> {
    if is_unreserved(c) {
        seq![c]
    } else if c == ' ' {
        seq!['%', '2', '0']
    } else {
        escape_bytes(encode_scalar(c as u32))
    }
}

/// The percent-encoded form of `s`: the encodings of its characters, in order.
pub open spec fn encode_chars(s: Seq<char>) -> Seq<char>
    decreases s.len(),
{
    if s.len() == 0 {
        Seq::empty()
    } else {
        encode_char(s[0]) + encode_chars(s.drop_first())
    }
}

/// The value of the hexadecimal digit, of either case, whose ASCII code is `b`.
pub open spec fn hex_value(b: u8) -> Option<u8> {
    if 0x30 <= b <= 0x39 {
        Some((b - 0x30) as u8)
    } else if 0x41 <= b <= 0x46 {
        Some((b - 0x37) as u8)
    } else if 0x61 <= b <= 0x66 {
        Some((b - 0x57) as u8)
    } else {
        None
    }
}

/// The bytes that percent-encoded bytes stand for: `%` and two hexadecimal
/// digits give the byte with that value, any other byte gives itself.
/// `None` where a `%` is not followed by two hexadecimal digits.
pub open spec fn unescape(bytes: Seq<u8>) -> Option<Seq<u8>>
    decreases bytes.len(),
{
    if bytes.len() == 0 {
        Some(Seq::empty())
    } else if bytes[0] != 0x25 {
        match unescape(bytes.drop_first()) {
            Some(rest) => Some(seq![bytes[0]] + rest),
            None => None,
        }
    } else if bytes.len() >= 3 && hex_value(bytes[1]) is Some && hex_value(bytes[2]) is Some {
        match unescape(bytes.skip(3)) {
            Some(rest) => Some(
                seq![(hex_value(bytes[1])->0 * 16 + hex_value(bytes[2])->0) as u8] + rest,
            ),
            None => None,
        }
    } else {
        None
    }
}

/// The text that the percent-encoded text `s` stands for: the bytes that the
/// UTF-8 form of `s` unescapes to, read as UTF-8. `None` where an escape is
/// malformed or those bytes are not valid UTF-8.
pub open spec fn decode_chars(s: Seq<char>) -> Option<Seq<char>> {
    match unescape(encode_utf8(s)) {
        Some(bytes) => if valid_utf8(bytes) {
            Some(decode_utf8(bytes))
        } else {
            None
        },
        None => None,
    }
}

/// What one byte of the UTF-8 form of the input becomes: the ASCII character
/// it stands for if that is unreserved, and its escape otherwise.
spec fn encode_byte(b: u8) -> Seq<char> {
    if b < 0x80 && is_unreserved(b as char) {
        seq![b as char]
    } else {
        escape_byte(b)
    }
}

/// The encodings of the bytes of `bytes`, in order.
spec fn encode_bytes(bytes: Seq<u8>) -> Seq<char>
    decreases bytes.len(),
{
    if bytes.len() == 0 {
        Seq::empty()
    } else {
        encode_byte(bytes[0]) + encode_bytes(bytes.drop_first())
    }
}

/// The characters of `s` as bytes, one for one.
spec fn ascii_bytes(s: Seq<char>) -> Seq<u8> {
    Seq::new(s.len(), |i: int| s[i] as u8)
}

proof fn lemma_encode_bytes_concat(a: Seq<u8>, b: Seq<u8>)
    ensures
        encode_bytes(a + b) == encode_bytes(a) + encode_bytes(b),
    decreases a.len(),
{
    if a.len() > 0 {
        assert((a + b).drop_first() == a.drop_first() + b);
        lemma_encode_bytes_concat(a.drop_first(), b);
    }
}

proof fn lemma_encode_bytes_push(a: Seq<u8>, b: u8)
    ensures
        encode_bytes(a.push(b)) == encode_bytes(a) + encode_byte(b),
{
    assert(a.push(b) == a + seq![b]);
    lemma_encode_bytes_concat(a, seq![b]);
    assert(seq![b].drop_first() == Seq::<u8>::empty());
    assert(encode_bytes(Seq::<u8>::empty()) == Seq::<char>::empty());
}

/// Bytes outside ASCII are always escaped.
proof fn lemma_encode_high_bytes(bytes: Seq<u8>)
    requires
        forall|i: int| 0 <= i < bytes.len() ==> bytes[i] >= 0x80,
    ensures
        encode_bytes(bytes) == escape_bytes(bytes),
    decreases bytes.len(),
{
    if bytes.len() > 0 {
        lemma_encode_high_bytes(bytes.drop_first());
    }
}

/// Every byte of the UTF-8 encoding of a character outside ASCII is outside
/// ASCII.
proof fn lemma_scalar_high_bytes(v: u32)
    requires
        0x80 <= v <= 0x10FFFF,
    ensures
        forall|i: int| 0 <= i < encode_scalar(v).len() ==> (#[trigger] encode_scalar(v)[i]) >= 0x80,
{
    assert(0xC0u8 | ((v >> 6) & 0x1F) as u8 >= 0x80) by (bit_vector);
    assert(0xE0u8 | ((v >> 12) & 0x0F) as u8 >= 0x80) by (bit_vector);
    assert(0xF0u8 | ((v >> 18) & 0x7) as u8 >= 0x80) by (bit_vector);
    assert(0x80u8 | (v & 0x3F) as u8 >= 0x80) by (bit_vector);
    assert(0x80u8 | ((v >> 6) & 0x3F) as u8 >= 0x80) by (bit_vector);
    assert(0x80u8 | ((v >> 12) & 0x3F) as u8 >= 0x80) by (bit_vector);
}

/// Encoding the UTF-8 bytes of one character byte by byte gives the encoding
/// of the character.
proof fn lemma_encode_scalar(c: char)
    ensures
        encode_bytes(encode_scalar(c as u32)) == encode_char(c),
{
    let v = c as u32;
    let bytes = encode_scalar(v);
    if v < 0x80 {
        assert((v & 0x7F) as u8 == v as u8) by (bit_vector)
            requires
                v < 0x80,
        ;
        assert(bytes.drop_first() == Seq::<u8>::empty());
        assert(encode_bytes(Seq::<u8>::empty()) == Seq::<char>::empty());
        assert(escape_bytes(Seq::<u8>::empty()) == Seq::<char>::empty());
    } else {
        lemma_scalar_high_bytes(v);
        lemma_encode_high_bytes(bytes);
    }
}

/// Encoding the UTF-8 form of a text byte by byte gives its encoding
/// character by character.
proof fn lemma_encode_bytes_utf8(s: Seq<char>)
    ensures
        encode_bytes(encode_utf8(s)) == encode_chars(s),
    decreases s.len(),
{
    if s.len() > 0 {
        lemma_encode_bytes_concat(encode_scalar(s[0] as u32), encode_utf8(s.drop_first()));
        lemma_encode_scalar(s[0]);
        lemma_encode_bytes_utf8(s.drop_first());
    }
}

/// The encoding of bytes holds unreserved characters and `%` only, and
/// unescapes to those bytes.
proof fn lemma_unescape_encode_bytes(bytes: Seq<u8>)
    ensures
        forall|i: int|
            0 <= i < encode_bytes(bytes).len() ==> {
                let c = #[trigger] encode_bytes(bytes)[i];
                is_unreserved(c) || c == '%'
            },
        unescape(ascii_bytes(encode_bytes(bytes))) == Some(bytes),
        encode_bytes(bytes).len() >= bytes.len(),
    decreases bytes.len(),
{
    if bytes.len() > 0 {
        let b = bytes[0];
        let rest = bytes.drop_first();
        let tail = encode_bytes(rest);
        lemma_unescape_encode_bytes(rest);
        let all = ascii_bytes(encode_byte(b) + tail);
        if b < 0x80 && is_unreserved(b as char) {
            assert(all.drop_first() == ascii_bytes(tail));
        } else {
            assert(all.skip(3) == ascii_bytes(tail));
        }
    }
}

/// Encoding a text leaves its parts in place: the encoding of `a` followed by
/// `b` is the encoding of `a` followed by the encoding of `b`.
pub proof fn lemma_encode_concat(a: Seq<char>, b: Seq<char>)
    ensures
        encode_chars(a + b) == encode_chars(a) + encode_chars(b),
    decreases a.len(),
{
    if a.len() > 0 {
        assert((a + b).drop_first() == a.drop_first() + b);
        lemma_encode_concat(a.drop_first(), b);
    }
}

/// The encoding of a text holds unreserved characters and `%` only, so never
/// a space, and is at least as long as the text.
pub proof fn lemma_encode_alphabet(s: Seq<char>)
    ensures
        forall|i: int|
            0 <= i < encode_chars(s).len() ==> {
                let c = #[trigger] encode_chars(s)[i];
                is_unreserved(c) || c == '%'
            },
        !encode_chars(s).contains(' '),
        encode_chars(s).len() >= s.len(),
        is_ascii_chars(encode_chars(s)),
{
    lemma_encode_bytes_utf8(s);
    lemma_unescape_encode_bytes(encode_utf8(s));
    lemma_encode_utf8_len(s);
}

/// The UTF-8 form of a text has at least one byte for each character.
proof fn lemma_encode_utf8_len(s: Seq<char>)
    ensures
        encode_utf8(s).len() >= s.len(),
    decreases s.len(),
{
    if s.len() > 0 {
        lemma_encode_utf8_len(s.drop_first());
    }
}

/// A space becomes `%20` wherever it stands: the encoding of a text with a
/// space between `a` and `b` is the encoding of `a`, then `%20`, then the
/// encoding of `b`.
pub proof fn lemma_encode_space(a: Seq<char>, b: Seq<char>)
    ensures
        encode_chars(a + seq![' '] + b) == encode_chars(a) + seq!['%', '2', '0'] + encode_chars(b),
{
    lemma_encode_concat(a + seq![' '], b);
    lemma_encode_concat(a, seq![' ']);
    assert(seq![' '].drop_first() == Seq::<char>::empty());
    assert(encode_chars(Seq::<char>::empty()) == Seq::<char>::empty());
}

/// Decoding undoes encoding: every text is recovered exactly from its
/// percent-encoded form.
pub proof fn lemma_decode_encode(s: Seq<char>)
    ensures
        decode_chars(encode_chars(s)) == Some(s),
{
    let bytes = encode_utf8(s);
    let encoded = encode_chars(s);
    lemma_encode_bytes_utf8(s);
    lemma_encode_alphabet(s);
    lemma_unescape_encode_bytes(bytes);
    is_ascii_chars_encode_utf8(encoded);
    assert(encode_utf8(encoded) == ascii_bytes(encoded));
    encode_utf8_valid_utf8(s);
    encode_utf8_decode_utf8(s);
}

fn hex_upper(n: u8) -> (c: char)
    requires
        n < 16,
    ensures
        c == hex_digit(n as int),
{
    if n < 10 {
        (0x30 + n) as char
    } else {
        (0x37 + n) as char
    }
}

fn is_unreserved_byte(b: u8) -> (r: bool)
    ensures
        r == (b < 0x80 && is_unreserved(b as char)),
{
    (0x61 <= b && b <= 0x7a) || (0x41 <= b && b <= 0x5a) || (0x30 <= b && b <= 0x39) || b == 0x2d
        || b == 0x5f || b == 0x2e || b == 0x7e
}

fn hex_value_of(b: u8) -> (r: Option<u8>)
    ensures
        r == hex_value(b),
{
    if 0x30 <= b && b <= 0x39 {
        Some(b - 0x30)
    } else if 0x41 <= b && b <= 0x46 {
        Some(b - 0x37)
    } else if 0x61 <= b && b <= 0x66 {
        Some(b - 0x57)
    } else {
        None
    }
}

/// Percent-encodes `s`: unreserved characters stay, a space becomes `%20`,
/// and every other character becomes the escapes of its UTF-8 bytes.
pub fn urlencoded(s: &str) -> (r: String)
    ensures
        r@ == encode_chars(s@),
        forall|i: int| 0 <= i < r@.len() ==> is_unreserved(#[trigger] r@[i]) || r@[i] == '%',
        !r@.contains(' '),
        r@.len() >= s@.len(),
{
    let bytes = s.as_bytes();
    let mut out = String::new();
    let mut i: usize = 0;
    while i < bytes.len()
        invariant
            i <= bytes.len(),
            out@ == encode_bytes(bytes@.take(i as int)),
        decreases bytes.len() - i,
    {
        let b = bytes[i];
        proof {
            assert(bytes@.take(i as int + 1) == bytes@.take(i as int).push(b));
            lemma_encode_bytes_push(bytes@.take(i as int), b);
        }
        if is_unreserved_byte(b) {
            push_char(&mut out, b as char);
        } else {
            push_char(&mut out, '%');
            push_char(&mut out, hex_upper(b / 16));
            push_char(&mut out, hex_upper(b % 16));
        }
        i += 1;
    }
    proof {
        assert(bytes@.take(i as int) == bytes@);
        lemma_encode_bytes_utf8(s@);
        lemma_encode_alphabet(s@);
    }
    out
}

/// Decodes percent-encoded text: each `%` with its two hexadecimal digits
/// gives one byte, everything else stands for itself, and the bytes are read
/// as UTF-8. `None` where an escape is malformed or the bytes are not valid
/// UTF-8.
pub fn urldecoded(s: &str) -> (r: Option<String>)
    ensures
        match r {
            Some(t) => decode_chars(s@) == Some(t@),
            None => decode_chars(s@) is None,
        },
{
    let bytes = s.as_bytes();
    let mut out: Vec<u8> = Vec::new();
    let mut i: usize = 0;
    assert(bytes@.skip(0) == bytes@);
    while i < bytes.len()
        invariant
            i <= bytes.len(),
            bytes@ == encode_utf8(s@),
            match unescape(bytes@.skip(i as int)) {
                Some(rest) => unescape(bytes@) == Some(out@ + rest),
                None => unescape(bytes@) is None,
            },
        decreases bytes.len() - i,
    {
        let b = bytes[i];
        let ghost here = bytes@.skip(i as int);
        if b != 0x25 {
            assert(here.drop_first() == bytes@.skip(i as int + 1));
            out.push(b);
            i += 1;
        } else {
            if bytes.len() - i < 3 {
                return None;
            }
            let hi = hex_value_of(bytes[i + 1]);
            let lo = hex_value_of(bytes[i + 2]);
            match (hi, lo) {
                (Some(h), Some(l)) => {
                    let v: u8 = h * 16 + l;
                    assert(here.skip(3) == bytes@.skip(i as int + 3));
                    out.push(v);
                    i += 3;
                },
                _ => {
                    return None;
                },
            }
        }
    }
    string_from_utf8(out)
}

} // verus!
