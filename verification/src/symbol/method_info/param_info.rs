//! Parameters of methods.

use vstd::prelude::*;
use vstd::utf8::{encode_utf8, is_ascii_chars};
use crate::bytes::{
    extend_bytes, le_u16, lemma_subrange_left, lemma_subrange_right, lemma_u16_roundtrip, lemma_u32_roundtrip, saturating_usize, seq_u32, u16_bytes, u16_from_le, u16_to_le,
    u32_bytes, u32_from_le, u32_to_le,
};
use crate::codepage::{decode_windows_1252, lemma_ascii_utf8_cp1252};
use crate::error::AdsTypeInfoError;
use crate::symbol::attributes::{text_len, AdsAttribute};
use crate::symbol::guid::{lemma_guid_len, Guid};
use crate::symbol::method_info::flags::AdsMethodParamFlags;
use crate::symbol::parse::{
    attr_views, attr_writable, attrs_wire_size, lemma_attr_block_reads_back, lemma_attr_list_reads_back, lemma_attrs_size_bytes, parse_attr_list,
    spec_attr_list, spec_attrs_bytes, spec_attrs_size, spec_text, write_attrs, AttrView, Outcome,
};
use crate::symbol::type_id::{ads_type_id_canonical, ads_type_id_code, ads_type_id_of, lemma_ads_type_id_roundtrip, AdsTypeId};

verus! {

/// A method parameter as plain values.
pub struct ParamInfoView {
    pub size: u32,
    pub align_size: u32,
    pub type_id: AdsTypeId,
    pub flags: u32,
    pub guid: Seq<u8>,
    pub length_is_param: u16,
    pub name: Seq<char>,
    pub data_type_name: Seq<char>,
    pub comment: Seq<char>,
    pub attributes: Seq<AttrView>,
}

/// The parameter entry at the start of `d` and its length.
#[verifier::opaque]
pub open spec fn spec_parse_param(d: Seq<u8>) -> Outcome<(ParamInfoView, int)> {
    if d.len() < 48 {
        Outcome::Error(AdsTypeInfoError::TooShort { expected: 48, got: d.len() as usize })
    } else {
        let el = seq_u32(d, 0) as int;
        if d.len() < el {
            Outcome::Error(AdsTypeInfoError::EntryLengthMismatch { expected: el as usize, got: d.len() as usize })
        } else if el < 48 {
            Outcome::Panic
        } else {
            let e = d.subrange(0, el);
            let name_end = 49 + le_u16(e[42], e[43]);
            let type_end = name_end + le_u16(e[44], e[45]) + 1;
            let comment_end = type_end + le_u16(e[46], e[47]) + 1;
            if comment_end - 1 > el {
                Outcome::Panic
            } else {
                let flags = seq_u32(e, 16);
                let attrs = if flags & 0x8 == 0x8 && comment_end + 2 <= el {
                    spec_attr_list(e, comment_end + 2, le_u16(e[comment_end], e[comment_end + 1]) as nat, false, false)
                } else {
                    (Seq::empty(), Outcome::Value(comment_end))
                };
                let v = ParamInfoView {
                    size: seq_u32(e, 4),
                    align_size: seq_u32(e, 8),
                    type_id: ads_type_id_of(seq_u32(e, 12)),
                    flags,
                    guid: e.subrange(24, 40),
                    length_is_param: le_u16(e[40], e[41]),
                    name: spec_text(e.subrange(48, name_end - 1)),
                    data_type_name: spec_text(e.subrange(name_end, type_end - 1)),
                    comment: spec_text(e.subrange(type_end, comment_end - 1)),
                    attributes: attrs.0,
                };
                match attrs.1 {
                    Outcome::Value(_) => Outcome::Value((v, el)),
                    Outcome::Error(err) => Outcome::Error(err),
                    Outcome::Panic => Outcome::Panic,
                }
            }
        }
    }
}

/// The size of a parameter entry: header, three UTF-8 strings with NULs, and
/// the attribute block when there are attributes.
pub open spec fn spec_param_size(v: ParamInfoView) -> int {
    48 + text_len(v.name) + 1 + text_len(v.data_type_name) + 1 + text_len(v.comment) + 1 + if v.attributes.len() == 0 {
        0
    } else {
        2 + spec_attrs_size(v.attributes)
    }
}

/// The 48-byte header of a parameter entry whose length is `el`.
pub open spec fn spec_param_head(v: ParamInfoView, el: u32) -> Seq<u8> {
    u32_bytes(el) + u32_bytes(v.size) + u32_bytes(v.align_size) + u32_bytes(ads_type_id_code(v.type_id)) + u32_bytes(
        v.flags,
    ) + u32_bytes(0) + v.guid + u16_bytes(v.length_is_param) + u16_bytes((text_len(v.name) % 65536) as u16)
        + u16_bytes((text_len(v.data_type_name) % 65536) as u16) + u16_bytes((text_len(v.comment) % 65536) as u16)
}

/// The strings of a parameter entry, each followed by a NUL.
pub open spec fn spec_param_strings(v: ParamInfoView) -> Seq<u8> {
    encode_utf8(v.name) + seq![0u8] + encode_utf8(v.data_type_name) + seq![0u8] + encode_utf8(v.comment) + seq![0u8]
}

/// The attribute block of a parameter entry: empty without attributes, else
/// the count and the attributes.
pub open spec fn spec_param_tail(v: ParamInfoView) -> Seq<u8> {
    if v.attributes.len() == 0 {
        Seq::<u8>::empty()
    } else {
        u16_bytes((v.attributes.len() % 65536) as u16) + spec_attrs_bytes(v.attributes)
    }
}

/// The wire bytes of a parameter entry: header, strings (written as UTF-8)
/// and attribute block.
#[verifier::opaque]
pub open spec fn spec_param_bytes(v: ParamInfoView) -> Seq<u8> {
    spec_param_head(v, saturating_usize(spec_param_size(v)) as u32) + spec_param_strings(v) + spec_param_tail(v)
}

/// The length of a string's UTF-8 text, truncated to 16 bits.
fn u16_len(s: &String) -> (r: u16)
    ensures
        r == (text_len(s@) % 65536) as u16,
{
    (s.as_str().as_bytes().len() % 65536) as u16
}

/// A parameter of a method.
#[derive(Debug, Clone, PartialEq, Eq)]
pub struct AdsMethodParamInfo {
    size: u32,
    align_size: u32,
    type_id: AdsTypeId,
    flags: AdsMethodParamFlags,
    guid: Guid,
    length_is_param: u16,
    name: String,
    data_type_name: String,
    comment: String,
    attributes: Vec<AdsAttribute>,
}

impl AdsMethodParamInfo {
    /// Size of the fixed header in bytes.
    pub const MIN_LENGTH: usize = 48;

    /// The parameter as plain values.
    pub closed spec fn spec_view(self) -> ParamInfoView {
        ParamInfoView {
            size: self.size,
            align_size: self.align_size,
            type_id: self.type_id,
            flags: self.flags.spec_bits(),
            guid: self.guid.spec_bytes(),
            length_is_param: self.length_is_param,
            name: self.name@,
            data_type_name: self.data_type_name@,
            comment: self.comment@,
            attributes: attr_views(self.attributes@),
        }
    }

    /// Creates a parameter without comment or attributes.
    pub fn new(
        size: u32,
        align_size: u32,
        type_id: AdsTypeId,
        flags: AdsMethodParamFlags,
        guid: Guid,
        length_is_param: u16,
        name: &str,
        data_type_name: &str,
    ) -> (r: AdsMethodParamInfo)
        ensures
            r.spec_view() == (ParamInfoView {
                size,
                align_size,
                type_id,
                flags: flags.spec_bits(),
                guid: guid.spec_bytes(),
                length_is_param,
                name: name@,
                data_type_name: data_type_name@,
                comment: Seq::empty(),
                attributes: Seq::empty(),
            }),
    {
        let r = AdsMethodParamInfo {
            size,
            align_size,
            type_id,
            flags,
            guid,
            length_is_param,
            name: name.to_owned(),
            data_type_name: data_type_name.to_owned(),
            comment: String::new(),
            attributes: Vec::new(),
        };
        assert(attr_views(r.attributes@) =~= Seq::<AttrView>::empty());
        r
    }

    /// The parameter with the comment replaced.
    pub fn with_comment(self, comment: &str) -> (r: AdsMethodParamInfo)
        ensures
            r.spec_view() == (ParamInfoView { comment: comment@, ..self.spec_view() }),
    {
        AdsMethodParamInfo { comment: comment.to_owned(), ..self }
    }

    /// The parameter with the attributes replaced; when there are any, the
    /// `ATTRIBUTES` flag is set too.
    pub fn with_attributes(self, attributes: Vec<AdsAttribute>) -> (r: AdsMethodParamInfo)
        ensures
            r.spec_view() == (ParamInfoView {
                attributes: attr_views(attributes@),
                flags: if attributes@.len() > 0 {
                    self.spec_view().flags | 0x8
                } else {
                    self.spec_view().flags
                },
                ..self.spec_view()
            }),
    {
        let flags = if attributes.len() > 0 {
            self.flags.union(AdsMethodParamFlags::new(AdsMethodParamFlags::ATTRIBUTES))
        } else {
            self.flags
        };
        AdsMethodParamInfo { attributes, flags, ..self }
    }

    /// The size of the parameter in bytes.
    pub fn size(&self) -> (r: u32)
        ensures
            r == self.spec_view().size,
    {
        self.size
    }

    /// The alignment of the parameter.
    pub fn align_size(&self) -> (r: u32)
        ensures
            r == self.spec_view().align_size,
    {
        self.align_size
    }

    /// The base data type of the parameter.
    pub fn type_id(&self) -> (r: AdsTypeId)
        ensures
            r == self.spec_view().type_id,
    {
        self.type_id
    }

    /// The parameter flags (in, out, by reference, ...).
    pub fn flags(&self) -> (r: AdsMethodParamFlags)
        ensures
            r.spec_bits() == self.spec_view().flags,
    {
        self.flags
    }

    /// The GUID of the parameter's type.
    pub fn guid(&self) -> (r: &Guid)
        ensures
            r.spec_bytes() == self.spec_view().guid,
    {
        &self.guid
    }

    /// For a parameter whose length another parameter gives, the index of
    /// that parameter (stored plus one on the wire, zero meaning none).
    pub fn dynamic_length_param_index(&self) -> (r: Option<usize>)
        ensures
            self.spec_view().length_is_param == 0 ==> r is None,
            self.spec_view().length_is_param != 0 ==> r == Some((self.spec_view().length_is_param - 1) as usize),
    {
        if self.length_is_param == 0 {
            None
        } else {
            Some((self.length_is_param - 1) as usize)
        }
    }

    /// The name of the parameter.
    pub fn name(&self) -> (r: &str)
        ensures
            r@ == self.spec_view().name,
    {
        self.name.as_str()
    }

    /// The name of the parameter's type.
    pub fn data_type_name(&self) -> (r: &str)
        ensures
            r@ == self.spec_view().data_type_name,
    {
        self.data_type_name.as_str()
    }

    /// The comment of the parameter.
    pub fn comment(&self) -> (r: &str)
        ensures
            r@ == self.spec_view().comment,
    {
        self.comment.as_str()
    }

    /// The attributes of the parameter.
    pub fn attributes(&self) -> (r: &[AdsAttribute])
        ensures
            attr_views(r@) == self.spec_view().attributes,
    {
        self.attributes.as_slice()
    }

    /// The size of the entry in bytes (saturating at `usize::MAX`).
    pub fn wire_size(&self) -> (r: usize)
        ensures
            r == saturating_usize(spec_param_size(self.spec_view())),
    {
        let n = self.name.as_str().as_bytes().len();
        let t = self.data_type_name.as_str().as_bytes().len();
        let c = self.comment.as_str().as_bytes().len();
        let strings = n.saturating_add(t).saturating_add(c).saturating_add(3);
        let attrs = if self.attributes.len() == 0 {
            0
        } else {
            attrs_wire_size(&self.attributes).saturating_add(2)
        };
        proof {
            assert(spec_attrs_size(self.spec_view().attributes) >= 0) by {
                lemma_attrs_size_nonneg(self.spec_view().attributes);
            }
        }
        strings.saturating_add(attrs).saturating_add(48)
    }

    /// The wire bytes of the entry; the strings are written as UTF-8.
    pub fn to_bytes(&self) -> (r: Vec<u8>)
        ensures
            r@ == spec_param_bytes(self.spec_view()),
    {
        let entry_length = self.wire_size() as u32;
        let mut buf: Vec<u8> = Vec::new();
        extend_bytes(&mut buf, u32_to_le(entry_length).as_slice());
        extend_bytes(&mut buf, u32_to_le(self.size).as_slice());
        extend_bytes(&mut buf, u32_to_le(self.align_size).as_slice());
        extend_bytes(&mut buf, self.type_id.to_bytes().as_slice());
        extend_bytes(&mut buf, self.flags.to_bytes().as_slice());
        extend_bytes(&mut buf, u32_to_le(0).as_slice());
        extend_bytes(&mut buf, self.guid.as_bytes().as_slice());
        extend_bytes(&mut buf, u16_to_le(self.length_is_param).as_slice());
        extend_bytes(&mut buf, u16_to_le(u16_len(&self.name)).as_slice());
        extend_bytes(&mut buf, u16_to_le(u16_len(&self.data_type_name)).as_slice());
        extend_bytes(&mut buf, u16_to_le(u16_len(&self.comment)).as_slice());
        let ghost v = self.spec_view();
        assert(buf@ =~= spec_param_head(v, entry_length));
        extend_bytes(&mut buf, self.name.as_str().as_bytes());
        buf.push(0);
        extend_bytes(&mut buf, self.data_type_name.as_str().as_bytes());
        buf.push(0);
        extend_bytes(&mut buf, self.comment.as_str().as_bytes());
        buf.push(0);
        assert(buf@ =~= spec_param_head(v, entry_length) + spec_param_strings(v));
        if self.attributes.len() > 0 {
            extend_bytes(&mut buf, u16_to_le((self.attributes.len() % 65536) as u16).as_slice());
            write_attrs(&self.attributes, &mut buf);
        }
        proof {
            reveal(spec_param_bytes);
        }
        assert(buf@ =~= spec_param_bytes(self.spec_view()));
        buf
    }

    /// Parses a parameter entry at the start of a slice; returns it and the
    /// entry length.
    pub fn try_from_slice(data: &[u8]) -> (r: Result<(AdsMethodParamInfo, usize), AdsTypeInfoError>)
        requires
            !(spec_parse_param(data@) is Panic),
        ensures
            match spec_parse_param(data@) {
                Outcome::Value((v, n)) => r matches Ok((p, m)) && p.spec_view() == v && m == n,
                Outcome::Error(err) => r == Err::<(AdsMethodParamInfo, usize), AdsTypeInfoError>(err),
                Outcome::Panic => false,
            },
    {
        proof {
            reveal(spec_parse_param);
        }
        let len = data.len();
        if len < Self::MIN_LENGTH {
            return Err(AdsTypeInfoError::TooShort { expected: Self::MIN_LENGTH, got: len });
        }
        let entry_length = u32_from_le([data[0], data[1], data[2], data[3]]) as usize;
        if len < entry_length {
            return Err(AdsTypeInfoError::EntryLengthMismatch { expected: entry_length, got: len });
        }
        let entry = &data[0..entry_length];
        let size = u32_from_le([entry[4], entry[5], entry[6], entry[7]]);
        let align_size = u32_from_le([entry[8], entry[9], entry[10], entry[11]]);
        let type_id = AdsTypeId::from_u32(u32_from_le([entry[12], entry[13], entry[14], entry[15]]));
        let flags = AdsMethodParamFlags::new(u32_from_le([entry[16], entry[17], entry[18], entry[19]]));
        let mut guid_bytes = [0u8; 16];
        let mut i: usize = 0;
        while i < 16
            invariant
                entry@.len() == entry_length,
                entry_length >= 48,
                0 <= i <= 16,
                forall|j: int| 0 <= j < i ==> guid_bytes@[j] == entry@[24 + j],
            decreases 16 - i,
        {
            guid_bytes[i] = entry[24 + i];
            i = i + 1;
        }
        assert(guid_bytes@ =~= entry@.subrange(24, 40));
        let guid = Guid::new(guid_bytes);
        let length_is_param = u16_from_le([entry[40], entry[41]]);
        let name_len = u16_from_le([entry[42], entry[43]]) as usize;
        let data_type_name_len = u16_from_le([entry[44], entry[45]]) as usize;
        let comment_len = u16_from_le([entry[46], entry[47]]) as usize;
        let name_end = Self::MIN_LENGTH + name_len + 1;
        let type_end = name_end + data_type_name_len + 1;
        let comment_end = type_end + comment_len + 1;
        let name = decode_windows_1252(&entry[Self::MIN_LENGTH..name_end - 1]);
        let data_type_name = decode_windows_1252(&entry[name_end..type_end - 1]);
        let comment = decode_windows_1252(&entry[type_end..comment_end - 1]);
        let mut attributes: Vec<AdsAttribute> = Vec::new();
        assert(attr_views(attributes@) =~= Seq::<AttrView>::empty());
        if flags.has_attributes() && comment_end + 2 <= entry_length {
            let attr_count = u16_from_le([entry[comment_end], entry[comment_end + 1]]) as usize;
            match parse_attr_list(entry, comment_end + 2, attr_count, false, false, &mut attributes) {
                Ok(_) => {},
                Err(e) => {
                    return Err(e);
                },
            }
        }
        let ghost attrs_view = attr_views(attributes@);
        let p = AdsMethodParamInfo {
            size,
            align_size,
            type_id,
            flags,
            guid,
            length_is_param,
            name,
            data_type_name,
            comment,
            attributes,
        };
        Ok((p, entry_length))
    }
}

/// The sizes in an attribute list are never negative.
pub proof fn lemma_attrs_size_nonneg(s: Seq<AttrView>)
    ensures
        spec_attrs_size(s) >= 0,
    decreases s.len(),
{
    if s.len() > 0 {
        lemma_attrs_size_nonneg(s.drop_last());
    }
}

/// True when a parameter reads back as written: ASCII strings whose lengths
/// fit their 16-bit fields, a type code that reads back as the same type, a
/// 16-byte GUID, attributes that read back and fit their count, the
/// `ATTRIBUTES` flag set when there are attributes, and an entry length that
/// fits its 32-bit field.
pub closed spec fn param_writable(v: ParamInfoView) -> bool {
    &&& is_ascii_chars(v.name) && v.name.len() < 65536
    &&& is_ascii_chars(v.data_type_name) && v.data_type_name.len() < 65536
    &&& is_ascii_chars(v.comment) && v.comment.len() < 65536
    &&& ads_type_id_canonical(v.type_id)
    &&& v.guid.len() == 16
    &&& v.attributes.len() < 65536
    &&& forall|i: int| 0 <= i < v.attributes.len() ==> attr_writable(#[trigger] v.attributes[i])
    &&& v.attributes.len() > 0 ==> v.flags & 0x8 == 0x8
    &&& spec_param_size(v) <= u32::MAX
}

/// The fields that the parser reads from a parameter header.
#[verifier::rlimit(60)]
proof fn lemma_param_head(b: Seq<u8>, v: ParamInfoView, el: u32)
    requires
        v.guid.len() == 16,
        ads_type_id_canonical(v.type_id),
        b.len() >= 48,
        b.subrange(0, 48) == spec_param_head(v, el),
    ensures
        seq_u32(b, 0) == el,
        seq_u32(b, 4) == v.size,
        seq_u32(b, 8) == v.align_size,
        ads_type_id_of(seq_u32(b, 12)) == v.type_id,
        seq_u32(b, 16) == v.flags,
        b.subrange(24, 40) == v.guid,
        le_u16(b[40], b[41]) == v.length_is_param,
        le_u16(b[42], b[43]) == (text_len(v.name) % 65536) as u16,
        le_u16(b[44], b[45]) == (text_len(v.data_type_name) % 65536) as u16,
        le_u16(b[46], b[47]) == (text_len(v.comment) % 65536) as u16,
{
    let h = spec_param_head(v, el);
    assert forall|i: int| 0 <= i < 48 implies b[i] == #[trigger] h[i] by {
        assert(b.subrange(0, 48)[i] == b[i]);
    }
    lemma_u32_roundtrip(el);
    lemma_u32_roundtrip(v.size);
    lemma_u32_roundtrip(v.align_size);
    lemma_u32_roundtrip(ads_type_id_code(v.type_id));
    lemma_u32_roundtrip(v.flags);
    lemma_ads_type_id_roundtrip(v.type_id);
    lemma_u16_roundtrip(v.length_is_param);
    lemma_u16_roundtrip((text_len(v.name) % 65536) as u16);
    lemma_u16_roundtrip((text_len(v.data_type_name) % 65536) as u16);
    lemma_u16_roundtrip((text_len(v.comment) % 65536) as u16);
    assert(b[0] == h[0] && b[1] == h[1] && b[2] == h[2] && b[3] == h[3]);
    assert(b[4] == h[4] && b[5] == h[5] && b[6] == h[6] && b[7] == h[7]);
    assert(b[8] == h[8] && b[9] == h[9] && b[10] == h[10] && b[11] == h[11]);
    assert(b[12] == h[12] && b[13] == h[13] && b[14] == h[14] && b[15] == h[15]);
    assert(b[16] == h[16] && b[17] == h[17] && b[18] == h[18] && b[19] == h[19]);
    assert(b[40] == h[40] && b[41] == h[41] && b[42] == h[42] && b[43] == h[43]);
    assert(b[44] == h[44] && b[45] == h[45] && b[46] == h[46] && b[47] == h[47]);
    assert(b.subrange(24, 40) =~= v.guid) by {
        assert forall|i: int| 0 <= i < 16 implies b.subrange(24, 40)[i] == v.guid[i] by {
            assert(b[24 + i] == h[24 + i]);
        }
    }
}

/// The fields of the entry `b` hold those of the parameter `v`, where the
/// parser reads them.
#[verifier::opaque]
pub open spec fn param_fields_hold(b: Seq<u8>, v: ParamInfoView) -> bool {
    let n = v.name.len() as int;
    let t = v.data_type_name.len() as int;
    let c = v.comment.len() as int;
    let strings_end = 51 + n + t + c;
    &&& param_writable(v)
    &&& b.len() == spec_param_size(v)
    &&& seq_u32(b, 0) == b.len()
    &&& seq_u32(b, 4) == v.size
    &&& seq_u32(b, 8) == v.align_size
    &&& ads_type_id_of(seq_u32(b, 12)) == v.type_id
    &&& seq_u32(b, 16) == v.flags
    &&& b.subrange(24, 40) == v.guid
    &&& le_u16(b[40], b[41]) == v.length_is_param
    &&& le_u16(b[42], b[43]) == n
    &&& le_u16(b[44], b[45]) == t
    &&& le_u16(b[46], b[47]) == c
    &&& b.subrange(48, 48 + n) == encode_utf8(v.name)
    &&& b.subrange(49 + n, 49 + n + t) == encode_utf8(v.data_type_name)
    &&& b.subrange(50 + n + t, 50 + n + t + c) == encode_utf8(v.comment)
    &&& v.attributes.len() == 0 ==> b.len() == strings_end
    &&& v.attributes.len() > 0 ==> strings_end + 2 <= b.len() && spec_attr_list(
        b,
        strings_end + 2,
        le_u16(b[strings_end], b[strings_end + 1]) as nat,
        false,
        false,
    ) == (v.attributes, Outcome::<int>::Value(b.len() as int))
}

/// What the parser gives for an entry whose fields hold those of `v`.
#[verifier::rlimit(60)]
proof fn lemma_param_parse_fields(b: Seq<u8>, v: ParamInfoView)
    requires
        param_fields_hold(b, v),
    ensures
        spec_parse_param(b) == Outcome::<(ParamInfoView, int)>::Value((v, b.len() as int)),
{
    reveal(param_fields_hold);
    reveal(spec_parse_param);
    lemma_ascii_utf8_cp1252(v.name);
    lemma_ascii_utf8_cp1252(v.data_type_name);
    lemma_ascii_utf8_cp1252(v.comment);
    let el = b.len() as int;
    let e = b.subrange(0, el);
    assert(e =~= b);
    let name_end = 49 + le_u16(e[42], e[43]);
    let type_end = name_end + le_u16(e[44], e[45]) + 1;
    let comment_end = type_end + le_u16(e[46], e[47]) + 1;
    assert(spec_text(e.subrange(48, name_end - 1)) == v.name);
    assert(spec_text(e.subrange(name_end, type_end - 1)) == v.data_type_name);
    assert(spec_text(e.subrange(type_end, comment_end - 1)) == v.comment);
    let flags = seq_u32(e, 16);
    let attrs = if flags & 0x8 == 0x8 && comment_end + 2 <= el {
        spec_attr_list(e, comment_end + 2, le_u16(e[comment_end], e[comment_end + 1]) as nat, false, false)
    } else {
        (Seq::empty(), Outcome::Value(comment_end))
    };
    if v.attributes.len() == 0 {
        assert(v.attributes =~= Seq::<AttrView>::empty());
        assert(comment_end == el);
    }
    assert(attrs.0 == v.attributes);
    assert(attrs.1 is Value);
    let w = ParamInfoView {
        size: seq_u32(e, 4),
        align_size: seq_u32(e, 8),
        type_id: ads_type_id_of(seq_u32(e, 12)),
        flags,
        guid: e.subrange(24, 40),
        length_is_param: le_u16(e[40], e[41]),
        name: spec_text(e.subrange(48, name_end - 1)),
        data_type_name: spec_text(e.subrange(name_end, type_end - 1)),
        comment: spec_text(e.subrange(type_end, comment_end - 1)),
        attributes: attrs.0,
    };
    assert(w == v);
}

/// The attribute block of a writable parameter reads back as its attributes.
#[verifier::rlimit(60)]
proof fn lemma_param_tail_fields(v: ParamInfoView)
    requires
        param_writable(v),
        v.attributes.len() > 0,
    ensures
        ({
            let b = spec_param_bytes(v);
            let se = 51 + v.name.len() as int + v.data_type_name.len() as int + v.comment.len() as int;
            &&& se + 2 <= b.len()
            &&& spec_attr_list(b, se + 2, le_u16(b[se], b[se + 1]) as nat, false, false) == (
                v.attributes,
                Outcome::<int>::Value(b.len() as int),
            )
        }),
{
    reveal(spec_param_bytes);
    let el = spec_param_size(v);
    let hs = spec_param_head(v, saturating_usize(el) as u32) + spec_param_strings(v);
    lemma_ascii_utf8_cp1252(v.name);
    lemma_ascii_utf8_cp1252(v.data_type_name);
    lemma_ascii_utf8_cp1252(v.comment);
    lemma_attrs_size_bytes(v.attributes);
    assert(hs.len() == 51 + v.name.len() + v.data_type_name.len() + v.comment.len());
    lemma_attr_block_reads_back(spec_param_bytes(v), hs, v.attributes, false);
}

/// The header and strings of a writable parameter's bytes hold its fields.
#[verifier::rlimit(60)]
proof fn lemma_param_bytes_front(v: ParamInfoView)
    requires
        param_writable(v),
    ensures
        ({
            let b = spec_param_bytes(v);
            let n = v.name.len() as int;
            let t = v.data_type_name.len() as int;
            let c = v.comment.len() as int;
            &&& b.len() == spec_param_size(v)
            &&& seq_u32(b, 0) == b.len()
            &&& seq_u32(b, 4) == v.size
            &&& seq_u32(b, 8) == v.align_size
            &&& ads_type_id_of(seq_u32(b, 12)) == v.type_id
            &&& seq_u32(b, 16) == v.flags
            &&& b.subrange(24, 40) == v.guid
            &&& le_u16(b[40], b[41]) == v.length_is_param
            &&& le_u16(b[42], b[43]) == n
            &&& le_u16(b[44], b[45]) == t
            &&& le_u16(b[46], b[47]) == c
            &&& b.subrange(48, 48 + n) == encode_utf8(v.name)
            &&& b.subrange(49 + n, 49 + n + t) == encode_utf8(v.data_type_name)
            &&& b.subrange(50 + n + t, 50 + n + t + c) == encode_utf8(v.comment)
            &&& v.attributes.len() == 0 ==> b.len() == 51 + n + t + c
        }),
{
    reveal(spec_param_bytes);
    let b = spec_param_bytes(v);
    let el = spec_param_size(v);
    lemma_ascii_utf8_cp1252(v.name);
    lemma_ascii_utf8_cp1252(v.data_type_name);
    lemma_ascii_utf8_cp1252(v.comment);
    lemma_attrs_size_bytes(v.attributes);
    let n = v.name.len() as int;
    let t = v.data_type_name.len() as int;
    let c = v.comment.len() as int;
    let head = spec_param_head(v, el as u32);
    let strings = spec_param_strings(v);
    let tail = spec_param_tail(v);
    assert(saturating_usize(el) == el);
    assert(head.len() == 48);
    let hs = head + strings;
    assert(b == hs + tail);
    assert(b.len() == el);
    lemma_subrange_left(hs, tail, 0, 48);
    lemma_subrange_left(head, strings, 0, 48);
    assert(head.subrange(0, 48) =~= head);
    lemma_param_head(b, v, el as u32);
    let s1 = encode_utf8(v.name) + seq![0u8];
    let s2 = s1 + encode_utf8(v.data_type_name) + seq![0u8];
    assert(strings == s2 + encode_utf8(v.comment) + seq![0u8]);
    assert(strings.subrange(0, n) =~= encode_utf8(v.name));
    assert(strings.subrange(n + 1, n + 1 + t) =~= encode_utf8(v.data_type_name));
    assert(strings.subrange(n + t + 2, n + t + 2 + c) =~= encode_utf8(v.comment));
    lemma_subrange_right(head, strings, 0, n);
    lemma_subrange_right(head, strings, n + 1, n + 1 + t);
    lemma_subrange_right(head, strings, n + t + 2, n + t + 2 + c);
    lemma_subrange_left(hs, tail, 48, 48 + n);
    lemma_subrange_left(hs, tail, 49 + n, 49 + n + t);
    lemma_subrange_left(hs, tail, 50 + n + t, 50 + n + t + c);
    assert(b.subrange(48, 48 + n) == hs.subrange(48, 48 + n));
    assert(hs.subrange(48, 48 + n) == strings.subrange(0, n));
    assert(b.subrange(49 + n, 49 + n + t) == hs.subrange(49 + n, 49 + n + t));
    assert(hs.subrange(49 + n, 49 + n + t) == strings.subrange(n + 1, n + 1 + t));
    assert(b.subrange(50 + n + t, 50 + n + t + c) == hs.subrange(50 + n + t, 50 + n + t + c));
    assert(hs.subrange(50 + n + t, 50 + n + t + c) == strings.subrange(n + t + 2, n + t + 2 + c));
}

/// The bytes of a writable parameter hold its fields where the parser reads them.
#[verifier::rlimit(60)]
proof fn lemma_param_bytes_fields(v: ParamInfoView)
    requires
        param_writable(v),
    ensures
        param_fields_hold(spec_param_bytes(v), v),
{
    reveal(param_fields_hold);
    lemma_param_bytes_front(v);
    if v.attributes.len() > 0 {
        lemma_param_tail_fields(v);
    }
}

/// Writing a parameter and parsing the bytes back gives the same parameter,
/// and the entry length read is the length written.
pub proof fn lemma_param_roundtrip(v: ParamInfoView)
    requires
        param_writable(v),
    ensures
        spec_parse_param(spec_param_bytes(v)) == Outcome::<(ParamInfoView, int)>::Value((v, spec_param_size(v))),
{
    lemma_param_bytes_fields(v);
    lemma_param_bytes_len(v);
    lemma_param_parse_fields(spec_param_bytes(v), v);
}

/// A parameter that reads back as written has a 16-byte GUID.
pub proof fn lemma_param_writable_guid(v: ParamInfoView)
    requires
        param_writable(v),
    ensures
        v.guid.len() == 16,
{
}

/// The bytes of a parameter entry are as long as its size.
pub proof fn lemma_param_bytes_len(v: ParamInfoView)
    requires
        v.guid.len() == 16,
    ensures
        spec_param_bytes(v).len() == spec_param_size(v),
{
    reveal(spec_param_bytes);
    lemma_attrs_size_bytes(v.attributes);
}

/// A parameter entry followed by more data parses as the entry alone.
pub proof fn lemma_param_prefix(d: Seq<u8>, v: ParamInfoView)
    requires
        param_writable(v),
        d.len() >= spec_param_bytes(v).len(),
        d.subrange(0, spec_param_bytes(v).len() as int) == spec_param_bytes(v),
    ensures
        spec_param_bytes(v).len() == spec_param_size(v),
        spec_parse_param(d) == Outcome::<(ParamInfoView, int)>::Value((v, spec_param_size(v))),
{
    reveal(spec_parse_param);
    let b = spec_param_bytes(v);
    let el = spec_param_size(v);
    lemma_param_roundtrip(v);
    lemma_param_bytes_len(v);
    assert(b.len() >= 48);
    assert forall|i: int| 0 <= i < 4 implies d[i] == #[trigger] b[i] by {
        assert(d.subrange(0, el)[i] == d[i]);
    }
    assert(seq_u32(d, 0) == seq_u32(b, 0));
    assert(b.subrange(0, el) =~= b);
}

/// The GUID of a parameter has sixteen bytes.
pub proof fn lemma_param_view_guid(p: AdsMethodParamInfo)
    ensures
        p.spec_view().guid.len() == 16,
{
    lemma_guid_len(p.guid);
}

} // verus!
