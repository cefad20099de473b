//! The Windows-1252 code page that PLC strings use, and the calls into
//! `encoding_rs` that convert to and from it.

use vstd::prelude::*;
use encoding_rs::WINDOWS_1252;
use vstd::utf8::{encode_utf8, is_ascii_chars, is_ascii_chars_encode_utf8};

verus! {

/// The character that a Windows-1252 byte denotes (WHATWG index).
pub open spec fn cp1252_char(b: u8) -> char {
    if b < 0x80 || b >= 0xA0 {
        b as char
    } else {
        match b {
            0x80 => '\u{20AC}',
            0x81 => '\u{0081}',
            0x82 => '\u{201A}',
            0x83 => '\u{0192}',
            0x84 => '\u{201E}',
            0x85 => '\u{2026}',
            0x86 => '\u{2020}',
            0x87 => '\u{2021}',
            0x88 => '\u{02C6}',
            0x89 => '\u{2030}',
            0x8A => '\u{0160}',
            0x8B => '\u{2039}',
            0x8C => '\u{0152}',
            0x8D => '\u{008D}',
            0x8E => '\u{017D}',
            0x8F => '\u{008F}',
            0x90 => '\u{0090}',
            0x91 => '\u{2018}',
            0x92 => '\u{2019}',
            0x93 => '\u{201C}',
            0x94 => '\u{201D}',
            0x95 => '\u{2022}',
            0x96 => '\u{2013}',
            0x97 => '\u{2014}',
            0x98 => '\u{02DC}',
            0x99 => '\u{2122}',
            0x9A => '\u{0161}',
            0x9B => '\u{203A}',
            0x9C => '\u{0153}',
            0x9D => '\u{009D}',
            0x9E => '\u{017E}',
            _ => '\u{0178}',
        }
    }
}

/// The Windows-1252 byte of a character, for the characters the code page holds.
pub open spec fn cp1252_byte(c: char) -> Option<u8> {
    let v = c as u32;
    if v < 0x80 || (0xA0 <= v && v < 0x100) {
        Some(v as u8)
    } else {
        match v {
            0x20AC => Some(0x80u8),
            0x0081 => Some(0x81u8),
            0x201A => Some(0x82u8),
            0x0192 => Some(0x83u8),
            0x201E => Some(0x84u8),
            0x2026 => Some(0x85u8),
            0x2020 => Some(0x86u8),
            0x2021 => Some(0x87u8),
            0x02C6 => Some(0x88u8),
            0x2030 => Some(0x89u8),
            0x0160 => Some(0x8Au8),
            0x2039 => Some(0x8Bu8),
            0x0152 => Some(0x8Cu8),
            0x008D => Some(0x8Du8),
            0x017D => Some(0x8Eu8),
            0x008F => Some(0x8Fu8),
            0x0090 => Some(0x90u8),
            0x2018 => Some(0x91u8),
            0x2019 => Some(0x92u8),
            0x201C => Some(0x93u8),
            0x201D => Some(0x94u8),
            0x2022 => Some(0x95u8),
            0x2013 => Some(0x96u8),
            0x2014 => Some(0x97u8),
            0x02DC => Some(0x98u8),
            0x2122 => Some(0x99u8),
            0x0161 => Some(0x9Au8),
            0x203A => Some(0x9Bu8),
            0x0153 => Some(0x9Cu8),
            0x009D => Some(0x9Du8),
            0x017E => Some(0x9Eu8),
            0x0178 => Some(0x9Fu8),
            _ => None,
        }
    }
}

/// True when every character of `s` has a Windows-1252 byte.
pub open spec fn cp1252_encodable(s: Seq<char>) -> bool {
    forall|i: int| 0 <= i < s.len() ==> (#[trigger] cp1252_byte(s[i])) is Some
}

/// The Windows-1252 bytes of an encodable character sequence.
pub open spec fn cp1252_encode(s: Seq<char>) -> Seq<u8> {
    s.map_values(|c: char| cp1252_byte(c)->0)
}

/// The characters that a Windows-1252 byte sequence denotes.
pub open spec fn cp1252_decode(b: Seq<u8>) -> Seq<char> {
    b.map_values(|x: u8| cp1252_char(x))
}

/// True when `b` starts with a UTF-8 or UTF-16 byte-order mark.
pub open spec fn starts_with_bom(b: Seq<u8>) -> bool {
    ||| (b.len() >= 3 && b[0] == 0xEF && b[1] == 0xBB && b[2] == 0xBF)
    ||| (b.len() >= 2 && b[0] == 0xFF && b[1] == 0xFE)
    ||| (b.len() >= 2 && b[0] == 0xFE && b[1] == 0xFF)
}

/// The ASCII decimal digits of `n`, most significant first.
pub open spec fn decimal_ascii(n: nat) -> Seq<u8>
    decreases n,
{
    if n < 10 {
        seq![(48 + n) as u8]
    } else {
        decimal_ascii(n / 10).push((48 + n % 10) as u8)
    }
}

/// The bytes that the encoder writes for one character: its Windows-1252
/// byte, or else the decimal numeric character reference `&#N;` of its code
/// point.
pub open spec fn cp1252_char_bytes(c: char) -> Seq<u8> {
    match cp1252_byte(c) {
        Some(b) => seq![b],
        None => seq![38u8, 35u8] + decimal_ascii(c as nat) + seq![59u8],
    }
}

/// What `encoding_rs` writes for a string when encoding it to Windows-1252:
/// the bytes of its characters one after the other.
#[verifier::opaque]
pub open spec fn windows_1252_encoded(s: Seq<char>) -> Seq<u8>
    decreases s.len(),
{
    if s.len() == 0 {
        Seq::empty()
    } else {
        windows_1252_encoded(s.drop_last()) + cp1252_char_bytes(s.last())
    }
}

/// For a string that the code page holds, the encoder writes the table byte
/// of each character.
pub proof fn lemma_windows_1252_encoded_table(s: Seq<char>)
    requires
        cp1252_encodable(s),
    ensures
        windows_1252_encoded(s) == cp1252_encode(s),
    decreases s.len(),
{
    reveal(windows_1252_encoded);
    if s.len() > 0 {
        let t = s.drop_last();
        assert(cp1252_encodable(t)) by {
            assert forall|i: int| 0 <= i < t.len() implies (#[trigger] cp1252_byte(t[i])) is Some by {
                assert(t[i] == s[i]);
            }
        }
        lemma_windows_1252_encoded_table(t);
        assert(cp1252_byte(s[s.len() - 1]) is Some);
        assert(cp1252_encode(s) =~= cp1252_encode(t) + seq![cp1252_byte(s.last())->0]);
    } else {
        assert(cp1252_encode(s) =~= Seq::<u8>::empty());
    }
}

/// What `encoding_rs` gives back when decoding bytes as Windows-1252 with
/// byte-order-mark sniffing.
pub uninterp spec fn windows_1252_decoded(b: Seq<u8>) -> Seq<char>;

/// The Windows-1252 bytes that a string is written as: the table bytes of its
/// characters when they all have one, else what the encoder writes.
pub open spec fn cp1252_bytes(s: Seq<char>) -> Seq<u8> {
    if cp1252_encodable(s) {
        cp1252_encode(s)
    } else {
        windows_1252_encoded(s)
    }
}

/// The text that Windows-1252 bytes are read as: each byte's character when
/// no byte-order mark starts them, else what the decoder gives.
pub open spec fn cp1252_text(b: Seq<u8>) -> Seq<char> {
    if starts_with_bom(b) {
        windows_1252_decoded(b)
    } else {
        cp1252_decode(b)
    }
}

/// Encodes a string to Windows-1252 with `encoding_rs::WINDOWS_1252.encode`,
/// returning the bytes and whether some character was unmappable.
///
/// Trusted: the crate implements the WHATWG encoder, whose index for this code
/// page is the table of `cp1252_byte`; it writes each character's table byte,
/// writes the decimal numeric character reference `&#N;` (`write_ncr`) for a
/// character not in the table, and reports errors exactly when there was
/// such a character.
#[verifier::external_body]
pub(crate) fn encode_windows_1252(s: &str) -> (r: (Vec<u8>, bool))
    ensures
        r.0@ == windows_1252_encoded(s@),
        r.1 <==> !cp1252_encodable(s@),
        !r.1 ==> r.0@ == cp1252_encode(s@),
{
    let (bytes, _, had_errors) = WINDOWS_1252.encode(s);
    (bytes.into_owned(), had_errors)
}

/// Decodes bytes as Windows-1252 with `encoding_rs::WINDOWS_1252.decode`.
///
/// Trusted: without a byte-order mark at the start, the crate decodes every
/// byte with the WHATWG index of the code page, the table of `cp1252_char`.
/// A leading byte-order mark switches the decoder to UTF-8 or UTF-16; that
/// result is only named, not stated.
#[verifier::external_body]
pub(crate) fn decode_windows_1252(bytes: &[u8]) -> (r: String)
    ensures
        r@ == windows_1252_decoded(bytes@),
        !starts_with_bom(bytes@) ==> r@ == cp1252_decode(bytes@),
{
    let (text, _, _) = WINDOWS_1252.decode(bytes);
    text.into_owned()
}

/// `String::from(c)`: the one-character string of `c`.
///
/// Trusted: std documents that it allocates a string holding the character.
#[verifier::external_body]
pub(crate) fn string_of_char(c: char) -> (r: String)
    ensures
        r@ == seq![c],
{
    String::from(c)
}

/// Decoding the Windows-1252 byte of a character gives the character back.
pub proof fn lemma_cp1252_char_roundtrip(c: char)
    requires
        cp1252_byte(c) is Some,
    ensures
        cp1252_char(cp1252_byte(c)->0) == c,
{
}

/// Decoding the Windows-1252 encoding of an encodable sequence gives it back.
pub proof fn lemma_cp1252_roundtrip(s: Seq<char>)
    requires
        cp1252_encodable(s),
    ensures
        cp1252_decode(cp1252_encode(s)) == s,
{
    assert forall|i: int| 0 <= i < s.len() implies #[trigger] cp1252_decode(cp1252_encode(s))[i] == s[i] by {
        assert(cp1252_byte(s[i]) is Some);
        lemma_cp1252_char_roundtrip(s[i]);
    }
    assert(cp1252_decode(cp1252_encode(s)) =~= s);
}

/// The UTF-8 bytes of ASCII text read back as Windows-1252 give the text
/// again: ASCII is the same in both, and no byte-order mark can start it.
pub proof fn lemma_ascii_utf8_cp1252(s: Seq<char>)
    requires
        is_ascii_chars(s),
    ensures
        encode_utf8(s).len() == s.len(),
        !starts_with_bom(encode_utf8(s)),
        cp1252_decode(encode_utf8(s)) == s,
{
    is_ascii_chars_encode_utf8(s);
    let e = encode_utf8(s);
    assert forall|i: int| 0 <= i < s.len() implies #[trigger] cp1252_decode(e)[i] == s[i] by {
        assert('\0' <= s[i] <= '\u{7f}');
        assert(e[i] == s[i] as u8);
    }
    assert(cp1252_decode(e) =~= s);
    if s.len() >= 2 {
        assert('\0' <= s[0] <= '\u{7f}');
        assert(e[0] == s[0] as u8);
    }
}

/// True when text reads back as written in Windows-1252: every character
/// has a table byte, and the bytes do not start with a byte-order mark.
pub open spec fn cp1252_readable(s: Seq<char>) -> bool {
    cp1252_encodable(s) && !starts_with_bom(cp1252_encode(s))
}

/// True when text reads back as written in Windows-1252 with a one-byte
/// length: it reads back, and has at most 255 characters.
pub open spec fn cp1252_text_writable(s: Seq<char>) -> bool {
    cp1252_readable(s) && s.len() <= 255
}

/// Reading back the Windows-1252 bytes of readable text gives the text; it
/// has one byte per character.
pub proof fn lemma_cp1252_text_roundtrip(s: Seq<char>)
    requires
        cp1252_readable(s),
    ensures
        cp1252_bytes(s).len() == s.len(),
        cp1252_text(cp1252_bytes(s)) == s,
{
    lemma_cp1252_roundtrip(s);
}

} // verus!
