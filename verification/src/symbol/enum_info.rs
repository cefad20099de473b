//! Variants of enum types: name and raw value, with an optional extended
//! section holding a comment and attributes.

use vstd::prelude::*;
use crate::bytes::{extend_bytes, le_u16, lemma_u16_roundtrip, u16_from_le, u16_to_le, u16_bytes};
use crate::codepage::{cp1252_bytes, cp1252_text_writable, decode_windows_1252, encode_windows_1252, lemma_cp1252_text_roundtrip};
use crate::error::AdsTypeInfoError;
use crate::symbol::attributes::{len_byte, AdsAttribute};
use crate::symbol::parse::{
    attr_views, attr_writable, lemma_attr_list_reads_back, parse_attr_list, spec_attr_list, spec_attrs_bytes, spec_text, write_attrs,
    AttrView, Outcome,
};

verus! {

/// An enum variant as plain values: (name, value bytes, comment, attributes).
pub type EnumInfoView = (Seq<char>, Seq<u8>, Seq<char>, Seq<AttrView>);

/// The standard section of an enum variant at the start of `d`, whose value
/// is `value_size` bytes wide: the variant (without comment or attributes)
/// and the size of the section.
pub open spec fn spec_parse_enum(d: Seq<u8>, value_size: int) -> Outcome<(EnumInfoView, int)> {
    if d.len() == 0 {
        Outcome::Error(AdsTypeInfoError::TooShort { expected: 1, got: 0 })
    } else {
        let name_len = d[0] as int;
        let total = 2 + name_len + value_size;
        if total > usize::MAX {
            Outcome::Panic
        } else if d.len() < total {
            Outcome::Error(AdsTypeInfoError::TooShort { expected: total as usize, got: d.len() as usize })
        } else {
            Outcome::Value(
                (
                    (spec_text(d.subrange(1, 1 + name_len)), d.subrange(2 + name_len, total), Seq::empty(), Seq::empty()),
                    total,
                ),
            )
        }
    }
}

/// The extended section at the start of `d`, applied to the variant `e`: the
/// new variant (also when an attribute fails) and the outcome, the section
/// length or the error.
pub open spec fn spec_extend_enum(e: EnumInfoView, d: Seq<u8>) -> (EnumInfoView, Outcome<int>) {
    if d.len() < 4 {
        (e, Outcome::Error(AdsTypeInfoError::TooShort { expected: 4, got: d.len() as usize }))
    } else {
        let entry_length = le_u16(d[0], d[1]) as int;
        if d.len() < entry_length {
            (e, Outcome::Error(AdsTypeInfoError::EntryLengthMismatch { expected: entry_length as usize, got: d.len() as usize }))
        } else {
            let comment_len = d[2] as int;
            let attr_count = d[3] as nat;
            let comment_end = 5 + comment_len;
            if comment_len > 0 && comment_end - 1 > d.len() {
                (e, Outcome::Panic)
            } else {
                let comment = if comment_len > 0 { spec_text(d.subrange(4, comment_end - 1)) } else { e.2 };
                let attrs = spec_attr_list(d, comment_end, attr_count, false, false);
                let e2 = (e.0, e.1, comment, e.3 + attrs.0);
                match attrs.1 {
                    Outcome::Value(_) => (e2, Outcome::Value(entry_length)),
                    Outcome::Error(err) => (e2, Outcome::Error(err)),
                    Outcome::Panic => (e2, Outcome::Panic),
                }
            }
        }
    }
}

/// The standard section of a variant: name length, encoded name, NUL, value.
pub open spec fn spec_enum_standard_bytes(e: EnumInfoView) -> Seq<u8> {
    let name = cp1252_bytes(e.0);
    seq![len_byte(name.len())] + name + seq![0u8] + e.1
}

/// The extended section of a variant, without its two length bytes: comment
/// length, attribute count, encoded comment, NUL, attributes.
pub open spec fn spec_enum_extended_body(e: EnumInfoView) -> Seq<u8> {
    let comment = cp1252_bytes(e.2);
    seq![len_byte(comment.len()), len_byte(e.3.len())] + comment + seq![0u8] + spec_attrs_bytes(e.3)
}

/// The extended section of a variant: empty when it has neither comment nor
/// attributes, else its length (truncated to 16 bits) and the body.
pub open spec fn spec_enum_extended_bytes(e: EnumInfoView) -> Seq<u8> {
    if e.2.len() == 0 && e.3.len() == 0 {
        Seq::empty()
    } else {
        u16_bytes(((spec_enum_extended_body(e).len() + 2) % 65536) as u16) + spec_enum_extended_body(e)
    }
}

/// One variant of an enum type.
#[derive(Debug, Clone, PartialEq, Eq)]
pub struct AdsEnumInfo {
    name: String,
    value: Vec<u8>,
    comment: String,
    attributes: Vec<AdsAttribute>,
}

impl AdsEnumInfo {
    /// The variant as plain values.
    pub closed spec fn spec_view(self) -> EnumInfoView {
        (self.name@, self.value@, self.comment@, attr_views(self.attributes@))
    }

    /// Creates a variant with a name and a raw value.
    pub fn new(name: &str, value: &[u8]) -> (r: AdsEnumInfo)
        ensures
            r.spec_view() == (name@, value@, Seq::<char>::empty(), Seq::<AttrView>::empty()),
    {
        let r = AdsEnumInfo {
            name: name.to_owned(),
            value: vstd::slice::slice_to_vec(value),
            comment: String::new(),
            attributes: Vec::new(),
        };
        assert(attr_views(r.attributes@) =~= Seq::<AttrView>::empty());
        r
    }

    /// Creates a variant with its extended metadata.
    pub fn new_ext(name: &str, value: &[u8], comment: &str, attributes: Vec<AdsAttribute>) -> (r: AdsEnumInfo)
        ensures
            r.spec_view() == (name@, value@, comment@, attr_views(attributes@)),
    {
        AdsEnumInfo {
            name: name.to_owned(),
            value: vstd::slice::slice_to_vec(value),
            comment: comment.to_owned(),
            attributes,
        }
    }

    /// The variant with the comment and attributes replaced.
    pub fn with_ext(self, comment: &str, attributes: Vec<AdsAttribute>) -> (r: AdsEnumInfo)
        ensures
            r.spec_view() == (self.spec_view().0, self.spec_view().1, comment@, attr_views(attributes@)),
    {
        AdsEnumInfo { name: self.name, value: self.value, comment: comment.to_owned(), attributes }
    }

    /// The variant with the comment replaced.
    pub fn with_comment(self, comment: &str) -> (r: AdsEnumInfo)
        ensures
            r.spec_view() == (self.spec_view().0, self.spec_view().1, comment@, self.spec_view().3),
    {
        AdsEnumInfo { name: self.name, value: self.value, comment: comment.to_owned(), attributes: self.attributes }
    }

    /// The variant with the attributes replaced.
    pub fn with_attributes(self, attributes: Vec<AdsAttribute>) -> (r: AdsEnumInfo)
        ensures
            r.spec_view() == (self.spec_view().0, self.spec_view().1, self.spec_view().2, attr_views(attributes@)),
    {
        AdsEnumInfo { name: self.name, value: self.value, comment: self.comment, attributes }
    }

    /// The name of the variant.
    pub fn name(&self) -> (r: &str)
        ensures
            r@ == self.spec_view().0,
    {
        self.name.as_str()
    }

    /// The raw value; its width is the size of the enum type.
    pub fn value(&self) -> (r: &[u8])
        ensures
            r@ == self.spec_view().1,
    {
        self.value.as_slice()
    }

    /// The comment of the variant.
    pub fn comment(&self) -> (r: &str)
        ensures
            r@ == self.spec_view().2,
    {
        self.comment.as_str()
    }

    /// The attributes of the variant.
    pub fn attributes(&self) -> (r: &[AdsAttribute])
        ensures
            attr_views(r@) == self.spec_view().3,
    {
        self.attributes.as_slice()
    }

    /// Parses the standard section of a variant (name and value) at the start
    /// of a slice; the value is `value_size` bytes wide. Returns the variant
    /// and the size of the section.
    pub fn try_from_slice(data: &[u8], value_size: usize) -> (r: Result<(AdsEnumInfo, usize), AdsTypeInfoError>)
        requires
            !(spec_parse_enum(data@, value_size as int) is Panic),
        ensures
            match spec_parse_enum(data@, value_size as int) {
                Outcome::Value((v, n)) => r matches Ok((e, m)) && e.spec_view() == v && m == n,
                Outcome::Error(err) => r == Err::<(AdsEnumInfo, usize), AdsTypeInfoError>(err),
                Outcome::Panic => false,
            },
    {
        let n = data.len();
        if n == 0 {
            return Err(AdsTypeInfoError::TooShort { expected: 1, got: 0 });
        }
        let name_len = data[0] as usize;
        let name_end = 1 + name_len + 1;
        let total_size = name_end + value_size;
        if n < total_size {
            return Err(AdsTypeInfoError::TooShort { expected: total_size, got: n });
        }
        let name = decode_windows_1252(&data[1..name_end - 1]);
        let value = vstd::slice::slice_to_vec(&data[name_end..total_size]);
        let r = AdsEnumInfo { name, value, comment: String::new(), attributes: Vec::new() };
        assert(attr_views(r.attributes@) =~= Seq::<AttrView>::empty());
        Ok((r, total_size))
    }

    /// Reads the extended section of the variant (comment and attributes) at
    /// the start of a slice; returns the length of the section. A comment is
    /// set only when the section has one; the attributes are appended, those
    /// read before a failing one too.
    pub fn extend_from_slice(&mut self, data: &[u8]) -> (r: Result<usize, AdsTypeInfoError>)
        requires
            !(spec_extend_enum(old(self).spec_view(), data@).1 is Panic),
        ensures
            final(self).spec_view() == spec_extend_enum(old(self).spec_view(), data@).0,
            match spec_extend_enum(old(self).spec_view(), data@).1 {
                Outcome::Value(n) => r == Ok::<usize, AdsTypeInfoError>(n as usize),
                Outcome::Error(err) => r == Err::<usize, AdsTypeInfoError>(err),
                Outcome::Panic => false,
            },
    {
        let n = data.len();
        if n < 4 {
            return Err(AdsTypeInfoError::TooShort { expected: 4, got: n });
        }
        let entry_length = u16_from_le([data[0], data[1]]) as usize;
        if n < entry_length {
            return Err(AdsTypeInfoError::EntryLengthMismatch { expected: entry_length, got: n });
        }
        let comment_len = data[2] as usize;
        let attr_count = data[3] as usize;
        let comment_end = 4 + comment_len + 1;
        if comment_len > 0 {
            self.comment = decode_windows_1252(&data[4..comment_end - 1]);
        }
        let r = parse_attr_list(data, comment_end, attr_count, false, false, &mut self.attributes);
        match r {
            Ok(_) => Ok(entry_length),
            Err(e) => Err(e),
        }
    }

    /// The standard and the extended section of the variant. Names and
    /// comments are encoded as Windows-1252; the extended section is empty
    /// when the variant has neither comment nor attributes.
    #[verifier::rlimit(80)]
    pub fn to_vec(&self) -> (r: (Vec<u8>, Vec<u8>))
        ensures
            r.0@ == spec_enum_standard_bytes(self.spec_view()),
            r.1@ == spec_enum_extended_bytes(self.spec_view()),
    {
        let (name_enc, _) = encode_windows_1252(self.name.as_str());
        assert(name_enc@ == cp1252_bytes(self.name@));
        let mut standard: Vec<u8> = Vec::new();
        standard.push(if name_enc.len() > 255 { 255u8 } else { name_enc.len() as u8 });
        extend_bytes(&mut standard, name_enc.as_slice());
        standard.push(0);
        extend_bytes(&mut standard, self.value.as_slice());
        assert(standard@ =~= spec_enum_standard_bytes(self.spec_view()));
        let mut extended: Vec<u8> = Vec::new();
        if !self.comment.as_str().is_empty() || self.attributes.len() != 0 {
            let (comment_enc, _) = encode_windows_1252(self.comment.as_str());
            assert(comment_enc@ == cp1252_bytes(self.comment@));
            let mut body: Vec<u8> = Vec::new();
            body.push(if comment_enc.len() > 255 { 255u8 } else { comment_enc.len() as u8 });
            body.push(if self.attributes.len() > 255 { 255u8 } else { self.attributes.len() as u8 });
            extend_bytes(&mut body, comment_enc.as_slice());
            body.push(0);
            write_attrs(&self.attributes, &mut body);
            assert(body@ =~= spec_enum_extended_body(self.spec_view()));
            let total = ((body.len() % 65536 + 2) % 65536) as u16;
            let l = u16_to_le(total);
            extend_bytes(&mut extended, l.as_slice());
            extend_bytes(&mut extended, body.as_slice());
        }
        assert(extended@ =~= spec_enum_extended_bytes(self.spec_view()));
        (standard, extended)
    }
}

/// Writing a variant and reading both sections back gives the variant again:
/// the standard section gives its name and value, and the extended section,
/// when it is written, adds its comment and attributes and reports its whole
/// length. This holds for names and comments that read back as written,
/// attributes that do, at most 255 of them, and an extended section shorter
/// than its 16-bit length field can count.
pub proof fn lemma_enum_roundtrip(e: EnumInfoView)
    requires
        cp1252_text_writable(e.0),
        cp1252_text_writable(e.2),
        e.3.len() <= 255,
        forall|i: int| 0 <= i < e.3.len() ==> attr_writable(#[trigger] e.3[i]),
        spec_enum_standard_bytes(e).len() <= usize::MAX,
        spec_enum_extended_body(e).len() + 2 < 65536,
    ensures
        spec_parse_enum(spec_enum_standard_bytes(e), e.1.len() as int) == Outcome::<(EnumInfoView, int)>::Value(
            ((e.0, e.1, Seq::<char>::empty(), Seq::<AttrView>::empty()), spec_enum_standard_bytes(e).len() as int),
        ),
        e.2.len() > 0 || e.3.len() > 0 ==> spec_extend_enum(
            (e.0, e.1, Seq::<char>::empty(), Seq::<AttrView>::empty()),
            spec_enum_extended_bytes(e),
        ) == (e, Outcome::<int>::Value(spec_enum_extended_bytes(e).len() as int)),
{
    lemma_cp1252_text_roundtrip(e.0);
    lemma_cp1252_text_roundtrip(e.2);
    let name = cp1252_bytes(e.0);
    let d = spec_enum_standard_bytes(e);
    let nl = name.len() as int;
    assert(d[0] == nl);
    assert(d.subrange(1, 1 + nl) =~= name);
    assert(d.subrange(2 + nl, 2 + nl + e.1.len()) =~= e.1);
    if e.2.len() > 0 || e.3.len() > 0 {
        let comment = cp1252_bytes(e.2);
        let cl = comment.len() as int;
        let body = spec_enum_extended_body(e);
        let x = spec_enum_extended_bytes(e);
        let ab = spec_attrs_bytes(e.3);
        let total = ((body.len() + 2) % 65536) as u16;
        assert(total == body.len() + 2);
        lemma_u16_roundtrip(total);
        assert(x =~= u16_bytes(total) + body);
        assert(le_u16(x[0], x[1]) == x.len());
        assert(x[2] == cl);
        assert(x[3] == e.3.len());
        assert(x.subrange(4, 4 + cl) =~= comment);
        assert(x.subrange(5 + cl, 5 + cl + ab.len()) =~= ab);
        lemma_attr_list_reads_back(x, 5 + cl, e.3, false, false);
        assert(Seq::<AttrView>::empty() + e.3 =~= e.3);
        if cl == 0 {
            assert(e.2 =~= Seq::<char>::empty());
        }
    }
}

} // verus!
