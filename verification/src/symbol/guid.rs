//! 16-byte GUIDs of the type tables, with their text form.

use vstd::prelude::*;
use vstd::utf8::{encode_utf8, is_ascii_chars, is_ascii_chars_encode_utf8};
use crate::error::GuidParseError;
use crate::text::{hex_char, hex_digit, string_push, text_chars};

verus! {

/// `rand::random::<[u8; 16]>()`.
///
/// Trusted: draws sixteen random bytes; nothing is stated of them.
#[verifier::external_body]
fn random_16_bytes() -> [u8; 16] {
    rand::random::<[u8; 16]>()
}

/// The text of the first `k` bytes of a GUID: two lower-case hexadecimal
/// digits per byte, with a hyphen before bytes 4, 6, 8 and 10.
pub open spec fn guid_text_prefix(b: Seq<u8>, k: int) -> Seq<char>
    decreases k,
{
    if k <= 0 {
        Seq::empty()
    } else {
        let i = k - 1;
        let before = guid_text_prefix(b, i);
        let dashed = if i == 4 || i == 6 || i == 8 || i == 10 { before.push('-') } else { before };
        dashed.push(hex_digit(b[i] as int / 16)).push(hex_digit(b[i] as int % 16))
    }
}

/// The text form of a GUID, such as `12345678-9abc-def0-1234-56789abcdef0`.
pub open spec fn guid_text(b: Seq<u8>) -> Seq<char> {
    guid_text_prefix(b, 16)
}

/// True for the characters that `str::trim` removes (Unicode `White_Space`).
pub open spec fn is_white_space(c: char) -> bool {
    ||| ('\t' <= c && c <= '\r')
    ||| c == ' '
    ||| c == '\u{85}'
    ||| c == '\u{A0}'
    ||| c == '\u{1680}'
    ||| ('\u{2000}' <= c && c <= '\u{200A}')
    ||| c == '\u{2028}'
    ||| c == '\u{2029}'
    ||| c == '\u{202F}'
    ||| c == '\u{205F}'
    ||| c == '\u{3000}'
}

/// `s` without its leading white space.
pub open spec fn trim_start_chars(s: Seq<char>) -> Seq<char>
    decreases s.len(),
{
    if s.len() > 0 && is_white_space(s[0]) {
        trim_start_chars(s.drop_first())
    } else {
        s
    }
}

/// `s` without its trailing white space.
pub open spec fn trim_end_chars(s: Seq<char>) -> Seq<char>
    decreases s.len(),
{
    if s.len() > 0 && is_white_space(s.last()) {
        trim_end_chars(s.drop_last())
    } else {
        s
    }
}

/// `s` without hyphens.
pub open spec fn without_hyphens(s: Seq<char>) -> Seq<char>
    decreases s.len(),
{
    if s.len() == 0 {
        s
    } else if s.last() == '-' {
        without_hyphens(s.drop_last())
    } else {
        without_hyphens(s.drop_last()).push(s.last())
    }
}

/// The hexadecimal value of a character, either case.
pub open spec fn hex_value(c: char) -> Option<int> {
    if '0' <= c && c <= '9' {
        Some(c as int - 48)
    } else if 'a' <= c && c <= 'f' {
        Some(c as int - 87)
    } else if 'A' <= c && c <= 'F' {
        Some(c as int - 55)
    } else {
        None
    }
}

/// The byte that a two-character chunk denotes under `u8::from_str_radix(_, 16)`:
/// two hexadecimal digits, or a plus sign and one digit.
pub open spec fn hex_pair(c0: char, c1: char) -> Option<u8> {
    if c0 == '+' {
        match hex_value(c1) {
            Some(v) => Some(v as u8),
            None => None,
        }
    } else {
        match (hex_value(c0), hex_value(c1)) {
            (Some(h), Some(l)) => Some((h * 16 + l) as u8),
            _ => None,
        }
    }
}

/// The characters that the text parser reads: trimmed, without hyphens.
pub open spec fn guid_digits(s: Seq<char>) -> Seq<char> {
    without_hyphens(trim_end_chars(trim_start_chars(s)))
}

/// The length in bytes of the UTF-8 text of `s`, as `str::len` reports it.
pub open spec fn utf8_len(s: Seq<char>) -> nat {
    encode_utf8(s).len()
}

/// True when 32 ASCII characters form 16 valid hexadecimal pairs.
pub open spec fn guid_pairs_valid(t: Seq<char>) -> bool {
    forall|i: int| 0 <= i < 16 ==> (#[trigger] hex_pair(t[2 * i], t[2 * i + 1])) is Some
}

/// The bytes that 16 valid hexadecimal pairs denote.
pub open spec fn guid_pairs_bytes(t: Seq<char>) -> Seq<u8> {
    Seq::new(16, |i: int| hex_pair(t[2 * i], t[2 * i + 1])->0)
}

/// A 16-byte globally unique identifier, stored as it appears on the wire.
#[derive(Clone, PartialEq, Eq, PartialOrd, Ord, Hash, Default, Debug)]
pub struct Guid([u8; 16]);

impl Guid {
    /// Wire size in bytes.
    pub const LENGTH: usize = 16;

    /// The sixteen bytes.
    pub closed spec fn spec_bytes(self) -> Seq<u8> {
        self.0@
    }

    /// Creates a GUID from its bytes.
    pub fn new(bytes: [u8; 16]) -> (r: Guid)
        ensures
            r.spec_bytes() == bytes@,
    {
        Guid(bytes)
    }

    /// Creates a random GUID.
    pub fn random() -> Guid {
        Guid::new(random_16_bytes())
    }

    /// The sixteen bytes.
    pub fn as_bytes(&self) -> (r: &[u8; 16])
        ensures
            r@ == self.spec_bytes(),
    {
        &self.0
    }

    /// The sixteen bytes, by value.
    pub fn into_bytes(self) -> (r: [u8; 16])
        ensures
            r@ == self.spec_bytes(),
    {
        self.0
    }

    /// Parses a GUID from a slice of exactly 16 bytes.
    pub fn try_from_slice(slice: &[u8]) -> (r: Result<Guid, GuidParseError>)
        ensures
            slice@.len() != 16 ==> r == Err::<Guid, GuidParseError>(GuidParseError::InvalidLength(slice@.len() as usize)),
            slice@.len() == 16 ==> (r matches Ok(g) && g.spec_bytes() == slice@),
    {
        if slice.len() != Self::LENGTH {
            return Err(GuidParseError::InvalidLength(slice.len()));
        }
        let mut guid = [0u8; 16];
        let mut i: usize = 0;
        while i < 16
            invariant
                slice@.len() == 16,
                0 <= i <= 16,
                forall|j: int| 0 <= j < i ==> guid@[j] == slice@[j],
            decreases 16 - i,
        {
            guid[i] = slice[i];
            i = i + 1;
        }
        assert(guid@ =~= slice@);
        Ok(Guid::new(guid))
    }

    /// True when all sixteen bytes are zero.
    pub fn is_nil(&self) -> (r: bool)
        ensures
            r == (forall|i: int| 0 <= i < 16 ==> self.spec_bytes()[i] == 0),
    {
        let mut i: usize = 0;
        while i < 16
            invariant
                0 <= i <= 16,
                self.0@.len() == 16,
                forall|j: int| 0 <= j < i ==> self.0@[j] == 0,
            decreases 16 - i,
        {
            if self.0[i] != 0 {
                assert(self.spec_bytes()[i as int] != 0);
                return false;
            }
            i = i + 1;
        }
        true
    }

    /// The text form, such as `12345678-9abc-def0-1234-56789abcdef0`.
    pub fn to_text(&self) -> (r: String)
        ensures
            r@ == guid_text(self.spec_bytes()),
    {
        let mut s = String::new();
        let mut i: usize = 0;
        while i < 16
            invariant
                0 <= i <= 16,
                self.0@.len() == 16,
                s@ == guid_text_prefix(self.0@, i as int),
            decreases 16 - i,
        {
            if i == 4 || i == 6 || i == 8 || i == 10 {
                string_push(&mut s, '-');
            }
            let b = self.0[i];
            string_push(&mut s, hex_char(b / 16));
            string_push(&mut s, hex_char(b % 16));
            i = i + 1;
        }
        s
    }

    /// Parses the text form: surrounding white space is ignored, hyphens are
    /// dropped, and the remaining text must be 32 hexadecimal digits (either
    /// case), read two at a time.
    pub fn parse_str(s: &str) -> (r: Result<Guid, GuidParseError>)
        ensures
            utf8_len(guid_digits(s@)) != 32 ==> r == Err::<Guid, GuidParseError>(
                GuidParseError::InvalidLength(utf8_len(guid_digits(s@)) as usize),
            ),
            utf8_len(guid_digits(s@)) == 32 && !(is_ascii_chars(guid_digits(s@)) && guid_pairs_valid(
                guid_digits(s@),
            )) ==> r == Err::<Guid, GuidParseError>(GuidParseError::InvalidHex),
            utf8_len(guid_digits(s@)) == 32 && is_ascii_chars(guid_digits(s@)) && guid_pairs_valid(
                guid_digits(s@),
            ) ==> (r matches Ok(g) && g.spec_bytes() == guid_pairs_bytes(guid_digits(s@))),
    {
        let chars = text_chars(s);
        let trimmed = trim_chars(&chars);
        let digits = drop_hyphens(&trimmed);
        let mut text = String::new();
        let mut i: usize = 0;
        while i < digits.len()
            invariant
                0 <= i <= digits@.len(),
                text@ == digits@.subrange(0, i as int),
            decreases digits@.len() - i,
        {
            string_push(&mut text, digits[i]);
            i = i + 1;
        }
        assert(text@ =~= digits@);
        let len = text.as_str().as_bytes().len();
        if len != 32 {
            return Err(GuidParseError::InvalidLength(len));
        }
        let mut k: usize = 0;
        while k < digits.len()
            invariant
                0 <= k <= digits@.len(),
                digits@ == guid_digits(s@),
                encode_utf8(digits@).len() == 32,
                forall|j: int| 0 <= j < k ==> '\0' <= #[trigger] digits@[j] <= '\u{7f}',
            decreases digits@.len() - k,
        {
            let c = digits[k];
            if !('\0' <= c && c <= '\u{7f}') {
                return Err(GuidParseError::InvalidHex);
            }
            k = k + 1;
        }
        assert(is_ascii_chars(digits@));
        proof {
            is_ascii_chars_encode_utf8(digits@);
        }
        let mut bytes = [0u8; 16];
        let mut p: usize = 0;
        while p < 16
            invariant
                0 <= p <= 16,
                digits@.len() == 32,
                digits@ == guid_digits(s@),
                encode_utf8(digits@).len() == 32,
                is_ascii_chars(digits@),
                forall|j: int| 0 <= j < p ==> (#[trigger] hex_pair(digits@[2 * j], digits@[2 * j + 1])) is Some,
                forall|j: int| 0 <= j < p ==> bytes@[j] == hex_pair(digits@[2 * j], digits@[2 * j + 1])->0,
            decreases 16 - p,
        {
            match parse_hex_pair(digits[2 * p], digits[2 * p + 1]) {
                Some(b) => {
                    bytes[p] = b;
                },
                None => {
                    assert(hex_pair(digits@[2 * (p as int)], digits@[2 * (p as int) + 1]) is None);
                    return Err(GuidParseError::InvalidHex);
                },
            }
            p = p + 1;
        }
        assert(bytes@ =~= guid_pairs_bytes(digits@));
        Ok(Guid::new(bytes))
    }
}

/// The hexadecimal value of a character, either case.
fn parse_hex_digit(c: char) -> (r: Option<u8>)
    ensures
        r matches Some(v) ==> hex_value(c) == Some(v as int),
        r is None ==> hex_value(c) is None,
{
    if '0' <= c && c <= '9' {
        Some((c as u32 - 48) as u8)
    } else if 'a' <= c && c <= 'f' {
        Some((c as u32 - 87) as u8)
    } else if 'A' <= c && c <= 'F' {
        Some((c as u32 - 55) as u8)
    } else {
        None
    }
}

/// The byte that a two-character chunk denotes in base 16.
fn parse_hex_pair(c0: char, c1: char) -> (r: Option<u8>)
    ensures
        r == hex_pair(c0, c1),
{
    if c0 == '+' {
        parse_hex_digit(c1)
    } else {
        match (parse_hex_digit(c0), parse_hex_digit(c1)) {
            (Some(h), Some(l)) => Some(h * 16 + l),
            _ => None,
        }
    }
}

/// The characters without leading and trailing white space.
fn trim_chars(v: &Vec<char>) -> (r: Vec<char>)
    ensures
        r@ == trim_end_chars(trim_start_chars(v@)),
{
    let n = v.len();
    let mut start: usize = 0;
    assert(v@.subrange(0, n as int) =~= v@);
    while start < n && is_white_space_char(v[start])
        invariant
            0 <= start <= n,
            n == v@.len(),
            trim_start_chars(v@) == trim_start_chars(v@.subrange(start as int, n as int)),
        decreases n - start,
    {
        assert(v@.subrange(start as int, n as int).drop_first() =~= v@.subrange(start + 1, n as int));
        start = start + 1;
    }
    assert(trim_start_chars(v@) == v@.subrange(start as int, n as int));
    let mut end: usize = n;
    while end > start && is_white_space_char(v[end - 1])
        invariant
            start <= end <= n,
            n == v@.len(),
            trim_end_chars(v@.subrange(start as int, n as int)) == trim_end_chars(
                v@.subrange(start as int, end as int),
            ),
        decreases end,
    {
        assert(v@.subrange(start as int, end as int).drop_last() =~= v@.subrange(start as int, end - 1));
        end = end - 1;
    }
    let mut r: Vec<char> = Vec::new();
    let mut i: usize = start;
    while i < end
        invariant
            start <= i <= end,
            end <= n,
            n == v@.len(),
            r@ == v@.subrange(start as int, i as int),
        decreases end - i,
    {
        r.push(v[i]);
        i = i + 1;
    }
    r
}

/// True for the characters that `str::trim` removes.
fn is_white_space_char(c: char) -> (r: bool)
    ensures
        r == is_white_space(c),
{
    ('\t' <= c && c <= '\r') || c == ' ' || c == '\u{85}' || c == '\u{A0}' || c == '\u{1680}' || ('\u{2000}' <= c
        && c <= '\u{200A}') || c == '\u{2028}' || c == '\u{2029}' || c == '\u{202F}' || c == '\u{205F}' || c
        == '\u{3000}'
}

/// The characters without hyphens.
fn drop_hyphens(v: &Vec<char>) -> (r: Vec<char>)
    ensures
        r@ == without_hyphens(v@),
{
    let mut r: Vec<char> = Vec::new();
    let mut i: usize = 0;
    while i < v.len()
        invariant
            0 <= i <= v@.len(),
            r@ == without_hyphens(v@.subrange(0, i as int)),
        decreases v@.len() - i,
    {
        assert(v@.subrange(0, i + 1).drop_last() =~= v@.subrange(0, i as int));
        if v[i] != '-' {
            r.push(v[i]);
        }
        i = i + 1;
    }
    assert(v@.subrange(0, v@.len() as int) =~= v@);
    r
}

impl core::convert::From<[u8; 16]> for Guid {
    fn from(bytes: [u8; 16]) -> (r: Guid)
        ensures
            r.spec_bytes() == bytes@,
    {
        Guid(bytes)
    }
}

impl vstd::std_specs::convert::FromSpecImpl<[u8; 16]> for Guid {
    open spec fn obeys_from_spec() -> bool {
        true
    }

    closed spec fn from_spec(bytes: [u8; 16]) -> Guid {
        Guid(bytes)
    }
}

impl core::convert::From<Guid> for [u8; 16] {
    fn from(g: Guid) -> (r: [u8; 16])
        ensures
            r@ == g.spec_bytes(),
    {
        g.into_bytes()
    }
}

impl vstd::std_specs::convert::FromSpecImpl<Guid> for [u8; 16] {
    open spec fn obeys_from_spec() -> bool {
        true
    }

    closed spec fn from_spec(g: Guid) -> [u8; 16] {
        g.0
    }
}

impl core::str::FromStr for Guid {
    type Err = GuidParseError;

    fn from_str(s: &str) -> (r: Result<Guid, GuidParseError>)
        ensures
            utf8_len(guid_digits(s@)) != 32 ==> r == Err::<Guid, GuidParseError>(
                GuidParseError::InvalidLength(utf8_len(guid_digits(s@)) as usize),
            ),
            utf8_len(guid_digits(s@)) == 32 && !(is_ascii_chars(guid_digits(s@)) && guid_pairs_valid(
                guid_digits(s@),
            )) ==> r == Err::<Guid, GuidParseError>(GuidParseError::InvalidHex),
            utf8_len(guid_digits(s@)) == 32 && is_ascii_chars(guid_digits(s@)) && guid_pairs_valid(
                guid_digits(s@),
            ) ==> (r matches Ok(g) && g.spec_bytes() == guid_pairs_bytes(guid_digits(s@))),
    {
        Guid::parse_str(s)
    }
}

/// The 32 hexadecimal digits of the first `k` bytes of a GUID, high digit first.
pub open spec fn guid_hex_digits(b: Seq<u8>, k: int) -> Seq<char> {
    Seq::new(
        (2 * k) as nat,
        |j: int| if j % 2 == 0 { hex_digit(b[j / 2] as int / 16) } else { hex_digit(b[j / 2] as int % 16) },
    )
}

/// A lower-case hexadecimal digit is ASCII, reads back as its value, and is
/// neither white space nor a hyphen nor a plus sign.
proof fn lemma_hex_digit(x: int)
    requires
        0 <= x < 16,
    ensures
        hex_value(hex_digit(x)) == Some(x),
        '\0' <= hex_digit(x) <= '\u{7f}',
        !is_white_space(hex_digit(x)),
        hex_digit(x) != '-',
        hex_digit(x) != '+',
{
}

/// Dropping the hyphens of the text of the first `k` bytes leaves their digits.
proof fn lemma_guid_text_digits(b: Seq<u8>, k: int)
    requires
        0 <= k <= 16,
        b.len() == 16,
    ensures
        without_hyphens(guid_text_prefix(b, k)) == guid_hex_digits(b, k),
    decreases k,
{
    if k == 0 {
        assert(guid_hex_digits(b, 0) =~= Seq::<char>::empty());
    } else {
        let i = k - 1;
        lemma_guid_text_digits(b, i);
        let before = guid_text_prefix(b, i);
        let dashed = if i == 4 || i == 6 || i == 8 || i == 10 { before.push('-') } else { before };
        let h = hex_digit(b[i] as int / 16);
        let l = hex_digit(b[i] as int % 16);
        lemma_hex_digit(b[i] as int / 16);
        lemma_hex_digit(b[i] as int % 16);
        let dh = dashed.push(h);
        let dhl = dh.push(l);
        assert(dhl.drop_last() =~= dh);
        assert(dhl.last() == l);
        assert(without_hyphens(dhl) == without_hyphens(dh).push(l));
        assert(dh.drop_last() =~= dashed);
        assert(dh.last() == h);
        assert(without_hyphens(dh) == without_hyphens(dashed).push(h));
        if i == 4 || i == 6 || i == 8 || i == 10 {
            assert(before.push('-').drop_last() =~= before);
            assert(before.push('-').last() == '-');
            assert(without_hyphens(dashed) == without_hyphens(before));
        }
        assert(guid_hex_digits(b, k) =~= guid_hex_digits(b, i).push(h).push(l));
    }
}

/// The text of the first `k > 0` bytes starts and ends with a hexadecimal digit.
proof fn lemma_guid_text_ends(b: Seq<u8>, k: int)
    requires
        0 < k <= 16,
        b.len() == 16,
    ensures
        guid_text_prefix(b, k).len() > 0,
        guid_text_prefix(b, k)[0] == hex_digit(b[0] as int / 16),
        guid_text_prefix(b, k).last() == hex_digit(b[k - 1] as int % 16),
    decreases k,
{
    let i = k - 1;
    let before = guid_text_prefix(b, i);
    let dashed = if i == 4 || i == 6 || i == 8 || i == 10 { before.push('-') } else { before };
    let h = hex_digit(b[i] as int / 16);
    let l = hex_digit(b[i] as int % 16);
    assert(guid_text_prefix(b, k) == dashed.push(h).push(l));
    if k == 1 {
        assert(before =~= Seq::<char>::empty());
        assert(dashed.push(h).push(l)[0] == h);
    } else {
        lemma_guid_text_ends(b, k - 1);
        assert(dashed[0] == before[0]);
        assert(dashed.push(h).push(l)[0] == dashed[0]);
    }
}

/// Parsing the text form of a GUID gives its bytes back: the text has no
/// surrounding white space, and without its hyphens it is 32 ASCII
/// hexadecimal digits whose pairs denote the bytes.
pub proof fn lemma_guid_text_roundtrip(b: Seq<u8>)
    requires
        b.len() == 16,
    ensures
        utf8_len(guid_digits(guid_text(b))) == 32,
        is_ascii_chars(guid_digits(guid_text(b))),
        guid_pairs_valid(guid_digits(guid_text(b))),
        guid_pairs_bytes(guid_digits(guid_text(b))) == b,
{
    let t = guid_text(b);
    lemma_guid_text_ends(b, 16);
    lemma_hex_digit(b[0] as int / 16);
    lemma_hex_digit(b[15] as int % 16);
    assert(trim_start_chars(t) == t);
    assert(trim_end_chars(t) == t);
    lemma_guid_text_digits(b, 16);
    let d = guid_hex_digits(b, 16);
    assert(guid_digits(t) == d);
    assert forall|j: int| 0 <= j < 32 implies '\0' <= #[trigger] d[j] <= '\u{7f}' by {
        lemma_hex_digit(b[j / 2] as int / 16);
        lemma_hex_digit(b[j / 2] as int % 16);
    }
    assert(is_ascii_chars(d));
    is_ascii_chars_encode_utf8(d);
    assert forall|i: int| 0 <= i < 16 implies #[trigger] hex_pair(d[2 * i], d[2 * i + 1]) == Some(b[i]) by {
        let x = b[i] as int;
        lemma_hex_digit(x / 16);
        lemma_hex_digit(x % 16);
        assert(d[2 * i] == hex_digit(x / 16));
        assert(d[2 * i + 1] == hex_digit(x % 16));
        assert((x / 16) * 16 + x % 16 == x);
    }
    assert(guid_pairs_bytes(d) =~= b);
}

/// A GUID has sixteen bytes.
pub proof fn lemma_guid_len(g: Guid)
    ensures
        g.spec_bytes().len() == 16,
{
}

} // verus!
