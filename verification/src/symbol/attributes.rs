//! Key-value attributes (`{attribute 'key' := 'value'}` pragmas) of types and symbols.

use vstd::prelude::*;
use vstd::utf8::encode_utf8;
use crate::bytes::{extend_bytes, saturating_usize};
use crate::codepage::{
    cp1252_bytes, cp1252_decode, cp1252_readable, decode_windows_1252, encode_windows_1252, lemma_cp1252_text_roundtrip,
    starts_with_bom, windows_1252_decoded,
};
use crate::error::AdsTypeInfoError;

verus! {

/// The byte length of the UTF-8 text of `s`.
pub open spec fn text_len(s: Seq<char>) -> nat {
    encode_utf8(s).len()
}

/// A length written in one byte: the length, or 255 when it is longer.
pub open spec fn len_byte(n: nat) -> u8 {
    if n > 255 { 255u8 } else { n as u8 }
}

/// The wire bytes of an attribute: the two length bytes, then the
/// Windows-1252 name and value, each followed by a NUL.
pub open spec fn spec_attribute_bytes(name: Seq<char>, value: Seq<char>) -> Seq<u8> {
    seq![len_byte(cp1252_bytes(name).len()), len_byte(cp1252_bytes(value).len())] + cp1252_bytes(name) + seq![0u8]
        + cp1252_bytes(value) + seq![0u8]
}

/// The name bytes of an attribute entry (after the two length bytes).
pub open spec fn attribute_name_bytes(data: Seq<u8>) -> Seq<u8> {
    data.subrange(2, 2 + data[0] as int)
}

/// The value bytes of an attribute entry (after the name and its NUL).
pub open spec fn attribute_value_bytes(data: Seq<u8>) -> Seq<u8> {
    data.subrange(3 + data[0] as int, 3 + data[0] as int + data[1] as int)
}

/// The size of an attribute entry: two length bytes, name, NUL, value, NUL.
pub open spec fn attribute_entry_len(data: Seq<u8>) -> int {
    4 + data[0] as int + data[1] as int
}

/// A key-value attribute of a type or symbol entry.
///
/// Wire format: name length (1 byte), value length (1 byte), name and NUL,
/// value and NUL. The names on the wire are Windows-1252.
#[derive(Debug, Clone, PartialEq, Eq)]
pub struct AdsAttribute {
    name: String,
    value: String,
}

impl AdsAttribute {
    /// Smallest wire size: two length bytes and two NULs.
    pub const MIN_LENGTH: usize = 4;

    /// The name.
    pub closed spec fn spec_name(self) -> Seq<char> {
        self.name@
    }

    /// The value.
    pub closed spec fn spec_value(self) -> Seq<char> {
        self.value@
    }

    /// The attribute as plain values: (name, value).
    pub open spec fn spec_view(self) -> (Seq<char>, Seq<char>) {
        (self.spec_name(), self.spec_value())
    }

    /// Creates an attribute.
    pub fn new(name: &str, value: &str) -> (r: AdsAttribute)
        ensures
            r.spec_name() == name@,
            r.spec_value() == value@,
    {
        AdsAttribute { name: name.to_owned(), value: value.to_owned() }
    }

    /// The name.
    pub fn name(&self) -> (r: &str)
        ensures
            r@ == self.spec_name(),
    {
        self.name.as_str()
    }

    /// The value.
    pub fn value(&self) -> (r: &str)
        ensures
            r@ == self.spec_value(),
    {
        self.value.as_str()
    }

    /// The size of the serialized attribute in bytes: two length bytes, the
    /// Windows-1252 name and value and their NULs (saturating at `usize::MAX`).
    pub fn wire_size(&self) -> (r: usize)
        ensures
            r == saturating_usize(
                (4 + cp1252_bytes(self.spec_name()).len() + cp1252_bytes(self.spec_value()).len()) as int,
            ),
    {
        let (name, _) = encode_windows_1252(self.name.as_str());
        let (value, _) = encode_windows_1252(self.value.as_str());
        assert(name@ == cp1252_bytes(self.spec_name()));
        assert(value@ == cp1252_bytes(self.spec_value()));
        let r = name.len().saturating_add(value.len()).saturating_add(4);
        r
    }

    /// Parses an attribute entry at the start of a slice. The name and value
    /// are decoded from Windows-1252; their terminators are not checked.
    pub fn try_from_slice(data: &[u8]) -> (r: Result<AdsAttribute, AdsTypeInfoError>)
        ensures
            data@.len() < 4 ==> r == Err::<AdsAttribute, AdsTypeInfoError>(
                AdsTypeInfoError::TooShort { expected: 4, got: data@.len() as usize },
            ),
            data@.len() >= 4 && data@.len() < attribute_entry_len(data@) ==> r == Err::<AdsAttribute, AdsTypeInfoError>(
                AdsTypeInfoError::UnexpectedLength {
                    expected: attribute_entry_len(data@) as usize,
                    got: data@.len() as usize,
                },
            ),
            data@.len() >= 4 && data@.len() >= attribute_entry_len(data@) ==> (r matches Ok(a)
                && a.spec_name() == windows_1252_decoded(attribute_name_bytes(data@))
                && a.spec_value() == windows_1252_decoded(attribute_value_bytes(data@))
                && (!starts_with_bom(attribute_name_bytes(data@)) ==> a.spec_name() == cp1252_decode(
                attribute_name_bytes(data@),
            )) && (!starts_with_bom(attribute_value_bytes(data@)) ==> a.spec_value() == cp1252_decode(
                attribute_value_bytes(data@),
            ))),
    {
        let n = data.len();
        if n < Self::MIN_LENGTH {
            return Err(AdsTypeInfoError::TooShort { expected: Self::MIN_LENGTH, got: n });
        }
        let name_len = data[0] as usize;
        let value_len = data[1] as usize;
        let name_end = 2 + name_len + 1;
        let value_end = name_end + value_len + 1;
        if n < value_end {
            return Err(AdsTypeInfoError::UnexpectedLength { expected: value_end, got: n });
        }
        let name = decode_windows_1252(&data[2..name_end - 1]);
        let value = decode_windows_1252(&data[name_end..value_end - 1]);
        Ok(AdsAttribute { name, value })
    }

    /// The wire bytes: the two length bytes (each at most 255), then the
    /// Windows-1252 name and value, each followed by a NUL.
    pub fn to_vec(&self) -> (r: Vec<u8>)
        ensures
            r@ == spec_attribute_bytes(self.spec_name(), self.spec_value()),
    {
        let (name, _) = encode_windows_1252(self.name.as_str());
        let (value, _) = encode_windows_1252(self.value.as_str());
        assert(name@ == cp1252_bytes(self.spec_name()));
        assert(value@ == cp1252_bytes(self.spec_value()));
        let mut buf: Vec<u8> = Vec::new();
        buf.push(if name.len() > 255 { 255u8 } else { name.len() as u8 });
        buf.push(if value.len() > 255 { 255u8 } else { value.len() as u8 });
        extend_bytes(&mut buf, name.as_slice());
        buf.push(0);
        extend_bytes(&mut buf, value.as_slice());
        buf.push(0);
        assert(buf@ =~= spec_attribute_bytes(self.spec_name(), self.spec_value()));
        buf
    }
}

/// Writing an attribute and parsing the bytes back gives the same attribute,
/// for names and values that read back as written in Windows-1252 with a
/// one-byte length: the bytes are long enough, their entry length is their
/// whole length, and the name and value bytes decode to the name and value.
pub proof fn lemma_attribute_roundtrip(name: Seq<char>, value: Seq<char>)
    requires
        cp1252_readable(name),
        cp1252_readable(value),
        name.len() <= 255,
        value.len() <= 255,
    ensures
        ({
            let b = spec_attribute_bytes(name, value);
            &&& b.len() >= 4
            &&& b.len() == attribute_entry_len(b)
            &&& !starts_with_bom(attribute_name_bytes(b))
            &&& !starts_with_bom(attribute_value_bytes(b))
            &&& cp1252_decode(attribute_name_bytes(b)) == name
            &&& cp1252_decode(attribute_value_bytes(b)) == value
        }),
{
    lemma_cp1252_text_roundtrip(name);
    lemma_cp1252_text_roundtrip(value);
    let b = spec_attribute_bytes(name, value);
    let n = name.len() as int;
    let v = value.len() as int;
    assert(b[0] == n);
    assert(b[1] == v);
    assert(attribute_name_bytes(b) =~= cp1252_bytes(name));
    assert(attribute_value_bytes(b) =~= cp1252_bytes(value));
}

} // verus!
