//! Members of structured types (struct, union, function block fields).

use vstd::prelude::*;
use crate::bytes::{
    extend_bytes, le_u16, lemma_subrange_left, lemma_subrange_right, lemma_u16_roundtrip, lemma_u32_roundtrip, saturating_usize,
    seq_u32, u16_bytes, u16_from_le, u16_to_le, u32_bytes, u32_from_le, u32_to_le,
};
use crate::codepage::{cp1252_bytes, cp1252_encode, cp1252_readable, decode_windows_1252, encode_windows_1252, lemma_cp1252_text_roundtrip};
use crate::error::AdsTypeInfoError;
use crate::symbol::attributes::AdsAttribute;
use crate::symbol::guid::Guid;
use crate::symbol::method_info::param_info::lemma_attrs_size_nonneg;
use crate::symbol::parse::{
    attr_views, attr_writable, attrs_wire_size, lemma_attr_block_reads_back, lemma_attrs_size_bytes, parse_attr_list,
    spec_attr_list, spec_attrs_bytes, spec_attrs_size, spec_text, write_attrs, AttrView, Outcome,
};
use crate::symbol::type_flags::AdsTypeFlags;
use crate::symbol::type_id::{ads_type_id_canonical, ads_type_id_code, ads_type_id_of, lemma_ads_type_id_roundtrip, AdsTypeId};

verus! {

/// A field as plain values.
pub struct FieldInfoView {
    pub version: u32,
    pub hash_value: u32,
    pub type_hash_value: u32,
    pub size: u32,
    pub offset: u32,
    pub type_id: AdsTypeId,
    pub flags: u32,
    pub name: Seq<char>,
    pub data_type_name: Seq<char>,
    pub comment: Seq<char>,
    pub guid: Option<Seq<u8>>,
    pub attributes: Seq<AttrView>,
}

/// Skipping up to `count` length-prefixed blocks of `e` from `pos` on: each
/// block starts with its 4-byte length; skipping stops early when fewer than
/// four bytes are left. The value is the position after them.
pub open spec fn spec_skip_blocks(e: Seq<u8>, pos: int, count: nat) -> Outcome<int>
    decreases count,
{
    if count == 0 {
        Outcome::Value(pos)
    } else if pos + 4 > usize::MAX {
        Outcome::Panic
    } else if pos + 4 > e.len() {
        Outcome::Value(pos)
    } else {
        let next = pos + seq_u32(e, pos);
        if next > usize::MAX {
            Outcome::Panic
        } else {
            spec_skip_blocks(e, next, (count - 1) as nat)
        }
    }
}

/// Skips up to `count` length-prefixed blocks of `e` from `pos` on.
pub fn skip_blocks(e: &[u8], pos: usize, count: usize) -> (r: usize)
    requires
        !(spec_skip_blocks(e@, pos as int, count as nat) is Panic),
    ensures
        spec_skip_blocks(e@, pos as int, count as nat) == Outcome::<int>::Value(r as int),
    decreases count,
{
    if count == 0 {
        return pos;
    }
    if pos + 4 > e.len() {
        return pos;
    }
    let len = u32_from_le([e[pos], e[pos + 1], e[pos + 2], e[pos + 3]]) as usize;
    skip_blocks(e, pos + len, count - 1)
}

/// The position after the optional sections that follow the strings of a
/// field entry, with the GUID read there: sub-items, GUID, copy mask, methods.
pub open spec fn spec_field_middle(e: Seq<u8>, comment_end: int) -> Outcome<(Option<Seq<u8>>, int)> {
    let el = e.len() as int;
    let size = seq_u32(e, 16) as int;
    let flags = seq_u32(e, 28);
    let after_arrays = comment_end + 8 * le_u16(e[38], e[39]);
    match spec_skip_blocks(e, after_arrays, le_u16(e[40], e[41]) as nat) {
        Outcome::Value(p1) => if flags & 0x80 == 0x80 && p1 + 16 > usize::MAX {
            Outcome::Panic
        } else {
            let has_guid = flags & 0x80 == 0x80 && p1 + 16 <= el;
            let guid = if has_guid { Some(e.subrange(p1, p1 + 16)) } else { None };
            let p2 = if has_guid { p1 + 16 } else { p1 };
            if flags & 0x200 == 0x200 && p2 + size > usize::MAX {
                Outcome::Panic
            } else {
                let p3 = if flags & 0x200 == 0x200 {
                    if p2 + size < el { p2 + size } else { el }
                } else {
                    p2
                };
                if flags & 0x800 == 0x800 && p3 + 2 > usize::MAX {
                    Outcome::Panic
                } else if flags & 0x800 == 0x800 && p3 + 2 <= el {
                    match spec_skip_blocks(e, p3 + 2, le_u16(e[p3], e[p3 + 1]) as nat) {
                        Outcome::Value(p4) => Outcome::Value((guid, p4)),
                        _ => Outcome::Panic,
                    }
                } else {
                    Outcome::Value((guid, p3))
                }
            }
        },
        _ => Outcome::Panic,
    }
}

/// The field that an entry of exactly `e.len()` bytes (at least 42) holds.
pub open spec fn spec_field_entry(e: Seq<u8>) -> Outcome<FieldInfoView> {
    let el = e.len() as int;
    let name_end = 43 + le_u16(e[32], e[33]);
    let type_end = name_end + le_u16(e[34], e[35]) + 1;
    let comment_end = type_end + le_u16(e[36], e[37]) + 1;
    if el < comment_end {
        Outcome::Error(AdsTypeInfoError::EntryLengthMismatch { expected: comment_end as usize, got: el as usize })
    } else {
        let flags = seq_u32(e, 28);
        match spec_field_middle(e, comment_end) {
            Outcome::Value((guid, pos)) => if flags & 0x1000 == 0x1000 && pos + 2 > usize::MAX {
                Outcome::Panic
            } else {
                let attrs = if flags & 0x1000 == 0x1000 && pos + 2 <= el {
                    spec_attr_list(e, pos + 2, le_u16(e[pos], e[pos + 1]) as nat, true, false)
                } else {
                    (Seq::empty(), Outcome::Value(pos))
                };
                let v = FieldInfoView {
                    version: seq_u32(e, 4),
                    hash_value: seq_u32(e, 8),
                    type_hash_value: seq_u32(e, 12),
                    size: seq_u32(e, 16),
                    offset: seq_u32(e, 20),
                    type_id: ads_type_id_of(seq_u32(e, 24)),
                    flags,
                    name: spec_text(e.subrange(42, name_end - 1)),
                    data_type_name: spec_text(e.subrange(name_end, type_end - 1)),
                    comment: spec_text(e.subrange(type_end, comment_end - 1)),
                    guid,
                    attributes: attrs.0,
                };
                match attrs.1 {
                    Outcome::Value(_) => Outcome::Value(v),
                    Outcome::Error(err) => Outcome::Error(err),
                    Outcome::Panic => Outcome::Panic,
                }
            },
            Outcome::Error(err) => Outcome::Error(err),
            Outcome::Panic => Outcome::Panic,
        }
    }
}

/// The field entry at the start of `d` and its length.
pub open spec fn spec_parse_field(d: Seq<u8>) -> Outcome<(FieldInfoView, int)> {
    if d.len() < 42 {
        Outcome::Error(AdsTypeInfoError::TooShort { expected: 42, got: d.len() as usize })
    } else {
        let el = seq_u32(d, 0) as int;
        if d.len() < el {
            Outcome::Error(AdsTypeInfoError::EntryLengthMismatch { expected: el as usize, got: d.len() as usize })
        } else if el < 42 {
            Outcome::Panic
        } else {
            match spec_field_entry(d.subrange(0, el)) {
                Outcome::Value(v) => Outcome::Value((v, el)),
                Outcome::Error(err) => Outcome::Error(err),
                Outcome::Panic => Outcome::Panic,
            }
        }
    }
}

/// The size of a field entry: header, three Windows-1252 strings with NULs,
/// the GUID and copy mask when flagged, and the attribute block when flagged.
pub open spec fn spec_field_size(v: FieldInfoView) -> int {
    42 + cp1252_bytes(v.name).len() + 1 + cp1252_bytes(v.data_type_name).len() + 1
        + cp1252_bytes(v.comment).len() + 1 + (if v.flags & 0x80 == 0x80 { 16int } else { 0int }) + (if v.flags
        & 0x200 == 0x200 {
        v.size as int
    } else {
        0int
    }) + (if v.flags & 0x1000 == 0x1000 {
        2 + spec_attrs_size(v.attributes)
    } else {
        0int
    })
}

/// The 42-byte header of a field entry whose length is `el`; the counts of
/// array dimensions and sub-items are written as zero.
pub open spec fn spec_field_head(v: FieldInfoView, el: u32) -> Seq<u8> {
    u32_bytes(el) + u32_bytes(v.version) + u32_bytes(v.hash_value) + u32_bytes(v.type_hash_value) + u32_bytes(v.size)
        + u32_bytes(v.offset) + u32_bytes(ads_type_id_code(v.type_id)) + u32_bytes(v.flags) + u16_bytes(
        (cp1252_bytes(v.name).len() % 65536) as u16,
    ) + u16_bytes((cp1252_bytes(v.data_type_name).len() % 65536) as u16) + u16_bytes(
        (cp1252_bytes(v.comment).len() % 65536) as u16,
    ) + u16_bytes(0) + u16_bytes(0)
}

/// The strings of a field entry, written as Windows-1252, each followed by a NUL.
pub open spec fn spec_field_strings(v: FieldInfoView) -> Seq<u8> {
    cp1252_bytes(v.name) + seq![0u8] + cp1252_bytes(v.data_type_name) + seq![0u8] + cp1252_bytes(v.comment) + seq![0u8]
}

/// The GUID block: the GUID (zeros when there is none) when flagged, else empty.
pub open spec fn spec_field_guid_block(v: FieldInfoView) -> Seq<u8> {
    if v.flags & 0x80 == 0x80 {
        match v.guid {
            Some(g) => g,
            None => Seq::new(16, |i: int| 0u8),
        }
    } else {
        Seq::empty()
    }
}

/// The copy mask block: `size` zero bytes when flagged, else empty.
pub open spec fn spec_field_mask_block(v: FieldInfoView) -> Seq<u8> {
    if v.flags & 0x200 == 0x200 {
        Seq::new(v.size as nat, |i: int| 0u8)
    } else {
        Seq::empty()
    }
}

/// The attribute block: count and attributes when flagged, else empty.
pub open spec fn spec_field_attr_block(v: FieldInfoView) -> Seq<u8> {
    if v.flags & 0x1000 == 0x1000 {
        u16_bytes((v.attributes.len() % 65536) as u16) + spec_attrs_bytes(v.attributes)
    } else {
        Seq::empty()
    }
}

/// The wire bytes of a field entry: header, strings (written as
/// Windows-1252), and the GUID, copy mask and attribute blocks.
#[verifier::opaque]
pub open spec fn spec_field_bytes(v: FieldInfoView) -> Seq<u8> {
    spec_field_head(v, saturating_usize(spec_field_size(v)) as u32) + spec_field_strings(v) + spec_field_guid_block(v)
        + spec_field_mask_block(v) + spec_field_attr_block(v)
}

/// Appends `n` zero bytes to a buffer.
pub fn push_zeros(buf: &mut Vec<u8>, n: u32)
    ensures
        final(buf)@ == old(buf)@ + Seq::new(n as nat, |i: int| 0u8),
{
    let ghost start = buf@;
    let mut i: u32 = 0;
    while i < n
        invariant
            0 <= i <= n,
            buf@ == start + Seq::new(i as nat, |k: int| 0u8),
        decreases n - i,
    {
        buf.push(0);
        i = i + 1;
        assert(buf@ =~= start + Seq::new(i as nat, |k: int| 0u8));
    }
}

/// A member of a structured type.
#[derive(Debug, Clone, PartialEq, Eq)]
pub struct AdsFieldInfo {
    version: u32,
    hash_value: u32,
    type_hash_value: u32,
    size: u32,
    offset: u32,
    type_id: AdsTypeId,
    flags: AdsTypeFlags,
    name: String,
    data_type_name: String,
    comment: String,
    guid: Option<Guid>,
    attributes: Vec<AdsAttribute>,
}

impl AdsFieldInfo {
    /// Size of the fixed header in bytes.
    pub const MIN_LENGTH: usize = 42;

    /// The field as plain values.
    pub closed spec fn spec_view(self) -> FieldInfoView {
        FieldInfoView {
            version: self.version,
            hash_value: self.hash_value,
            type_hash_value: self.type_hash_value,
            size: self.size,
            offset: self.offset,
            type_id: self.type_id,
            flags: self.flags.spec_bits(),
            name: self.name@,
            data_type_name: self.data_type_name@,
            comment: self.comment@,
            guid: match self.guid {
                Some(g) => Some(g.spec_bytes()),
                None => None,
            },
            attributes: attr_views(self.attributes@),
        }
    }

    /// The version of the description.
    pub fn version(&self) -> (r: u32)
        ensures
            r == self.spec_view().version,
    {
        self.version
    }

    /// The hash of the type, or the getter code offset.
    pub fn hash_value(&self) -> (r: u32)
        ensures
            r == self.spec_view().hash_value,
    {
        self.hash_value
    }

    /// The hash of the base type, or the setter code offset.
    pub fn type_hash_value(&self) -> (r: u32)
        ensures
            r == self.spec_view().type_hash_value,
    {
        self.type_hash_value
    }

    /// The size of the field (in bits when the type holds bit values).
    pub fn size(&self) -> (r: u32)
        ensures
            r == self.spec_view().size,
    {
        self.size
    }

    /// The offset of the field in its parent type.
    pub fn offset(&self) -> (r: u32)
        ensures
            r == self.spec_view().offset,
    {
        self.offset
    }

    /// The base data type of the field.
    pub fn data_type(&self) -> (r: AdsTypeId)
        ensures
            r == self.spec_view().type_id,
    {
        self.type_id
    }

    /// The type flags of the field.
    pub fn flags(&self) -> (r: AdsTypeFlags)
        ensures
            r.spec_bits() == self.spec_view().flags,
    {
        self.flags
    }

    /// The name of the field.
    pub fn name(&self) -> (r: &str)
        ensures
            r@ == self.spec_view().name,
    {
        self.name.as_str()
    }

    /// The name of the field's type.
    pub fn data_type_name(&self) -> (r: &str)
        ensures
            r@ == self.spec_view().data_type_name,
    {
        self.data_type_name.as_str()
    }

    /// The comment of the field.
    pub fn comment(&self) -> (r: &str)
        ensures
            r@ == self.spec_view().comment,
    {
        self.comment.as_str()
    }

    /// The GUID of the field's type, when the entry carries one.
    pub fn guid(&self) -> (r: Option<&Guid>)
        ensures
            match self.spec_view().guid {
                Some(b) => r matches Some(g) && g.spec_bytes() == b,
                None => r is None,
            },
    {
        match &self.guid {
            Some(g) => Some(g),
            None => None,
        }
    }

    /// The attributes of the field.
    pub fn attributes(&self) -> (r: &[AdsAttribute])
        ensures
            attr_views(r@) == self.spec_view().attributes,
    {
        self.attributes.as_slice()
    }

    /// The size of the serialized entry in bytes (saturating at `usize::MAX`).
    pub fn wire_size(&self) -> (r: usize)
        ensures
            r == saturating_usize(spec_field_size(self.spec_view())),
    {
        let (name, _) = encode_windows_1252(self.name.as_str());
        let (tn, _) = encode_windows_1252(self.data_type_name.as_str());
        let (comment, _) = encode_windows_1252(self.comment.as_str());
        let mut size = name.len().saturating_add(tn.len()).saturating_add(comment.len()).saturating_add(45);
        if self.flags.has_type_guid() {
            size = size.saturating_add(16);
        }
        if self.flags.has_copy_mask() {
            size = size.saturating_add(self.size as usize);
        }
        if self.flags.has_attributes() {
            size = size.saturating_add(attrs_wire_size(&self.attributes).saturating_add(2));
        }
        proof {
            lemma_attrs_size_nonneg(self.spec_view().attributes);
        }
        size
    }

    /// The wire bytes of the entry; the strings are written as Windows-1252.
    pub fn to_vec(&self) -> (r: Vec<u8>)
        ensures
            r@ == spec_field_bytes(self.spec_view()),
    {
        let entry_len = self.wire_size() as u32;
        let (name, _) = encode_windows_1252(self.name.as_str());
        let (tn, _) = encode_windows_1252(self.data_type_name.as_str());
        let (comment, _) = encode_windows_1252(self.comment.as_str());
        let mut buf: Vec<u8> = Vec::new();
        extend_bytes(&mut buf, u32_to_le(entry_len).as_slice());
        extend_bytes(&mut buf, u32_to_le(self.version).as_slice());
        extend_bytes(&mut buf, u32_to_le(self.hash_value).as_slice());
        extend_bytes(&mut buf, u32_to_le(self.type_hash_value).as_slice());
        extend_bytes(&mut buf, u32_to_le(self.size).as_slice());
        extend_bytes(&mut buf, u32_to_le(self.offset).as_slice());
        extend_bytes(&mut buf, self.type_id.to_bytes().as_slice());
        extend_bytes(&mut buf, self.flags.to_bytes().as_slice());
        extend_bytes(&mut buf, u16_to_le((name.len() % 65536) as u16).as_slice());
        extend_bytes(&mut buf, u16_to_le((tn.len() % 65536) as u16).as_slice());
        extend_bytes(&mut buf, u16_to_le((comment.len() % 65536) as u16).as_slice());
        extend_bytes(&mut buf, u16_to_le(0).as_slice());
        extend_bytes(&mut buf, u16_to_le(0).as_slice());
        extend_bytes(&mut buf, name.as_slice());
        buf.push(0);
        extend_bytes(&mut buf, tn.as_slice());
        buf.push(0);
        extend_bytes(&mut buf, comment.as_slice());
        buf.push(0);
        let ghost v = self.spec_view();
        assert(name@ == cp1252_bytes(v.name));
        assert(tn@ == cp1252_bytes(v.data_type_name));
        assert(comment@ == cp1252_bytes(v.comment));
        assert(buf@ =~= spec_field_head(v, entry_len) + spec_field_strings(v));
        let ghost after_strings = buf@;
        if self.flags.has_type_guid() {
            match &self.guid {
                Some(g) => extend_bytes(&mut buf, g.as_bytes().as_slice()),
                None => {
                    let z = Guid::new([0u8; 16]);
                    assert(z.spec_bytes() =~= Seq::new(16, |i: int| 0u8));
                    extend_bytes(&mut buf, z.as_bytes().as_slice());
                },
            }
        }
        let ghost after_guid = buf@;
        assert(after_guid =~= after_strings + spec_field_guid_block(v));
        if self.flags.has_copy_mask() {
            push_zeros(&mut buf, self.size);
        }
        let ghost after_mask = buf@;
        assert(after_mask =~= after_guid + spec_field_mask_block(v));
        if self.flags.has_attributes() {
            extend_bytes(&mut buf, u16_to_le((self.attributes.len() % 65536) as u16).as_slice());
            write_attrs(&self.attributes, &mut buf);
        }
        assert(buf@ =~= after_mask + spec_field_attr_block(v));
        proof {
            reveal(spec_field_bytes);
        }
        assert(buf@ =~= spec_field_bytes(self.spec_view()));
        buf
    }

    /// Parses a field entry at the start of a slice; returns it and the
    /// entry length.
    pub fn try_from_slice(data: &[u8]) -> (r: Result<(AdsFieldInfo, usize), AdsTypeInfoError>)
        requires
            !(spec_parse_field(data@) is Panic),
        ensures
            match spec_parse_field(data@) {
                Outcome::Value((v, n)) => r matches Ok((f, m)) && f.spec_view() == v && m == n,
                Outcome::Error(err) => r == Err::<(AdsFieldInfo, usize), AdsTypeInfoError>(err),
                Outcome::Panic => false,
            },
    {
        let len = data.len();
        if len < Self::MIN_LENGTH {
            return Err(AdsTypeInfoError::TooShort { expected: Self::MIN_LENGTH, got: len });
        }
        let entry_length = u32_from_le([data[0], data[1], data[2], data[3]]) as usize;
        if len < entry_length {
            return Err(AdsTypeInfoError::EntryLengthMismatch { expected: entry_length, got: len });
        }
        match Self::parse_entry(&data[0..entry_length]) {
            Ok(f) => Ok((f, entry_length)),
            Err(e) => Err(e),
        }
    }

    /// Reads the GUID and skips the optional sections after the strings.
    fn parse_middle(entry: &[u8], comment_end: usize) -> (r: (Option<Guid>, usize))
        requires
            entry@.len() >= 42,
            comment_end <= entry@.len(),
            comment_end <= 0x40000,
            !(spec_field_middle(entry@, comment_end as int) is Panic),
        ensures
            spec_field_middle(entry@, comment_end as int) matches Outcome::Value((g, p)) && p == r.1 && match g {
                Some(b) => r.0 matches Some(x) && x.spec_bytes() == b,
                None => r.0 is None,
            },
    {
        let el = entry.len();
        let size = u32_from_le([entry[16], entry[17], entry[18], entry[19]]) as usize;
        let flags = AdsTypeFlags::from_bytes([entry[28], entry[29], entry[30], entry[31]]);
        let array_dim_count = u16_from_le([entry[38], entry[39]]) as usize;
        let sub_item_count = u16_from_le([entry[40], entry[41]]) as usize;
        let mut pos = comment_end + 8 * array_dim_count;
        pos = skip_blocks(entry, pos, sub_item_count);
        let mut guid: Option<Guid> = None;
        if flags.has_type_guid() && pos + 16 <= el {
            let mut g = [0u8; 16];
            let mut i: usize = 0;
            while i < 16
                invariant
                    pos + 16 <= el,
                    el == entry@.len(),
                    0 <= i <= 16,
                    forall|j: int| 0 <= j < i ==> g@[j] == entry@[pos + j],
                decreases 16 - i,
            {
                g[i] = entry[pos + i];
                i = i + 1;
            }
            assert(g@ =~= entry@.subrange(pos as int, pos + 16));
            guid = Some(Guid::new(g));
            pos = pos + 16;
        }
        if flags.has_copy_mask() {
            pos = if pos + size < el { pos + size } else { el };
        }
        if flags.has_method_infos() && pos + 2 <= el {
            let method_count = u16_from_le([entry[pos], entry[pos + 1]]) as usize;
            pos = skip_blocks(entry, pos + 2, method_count);
        }
        (guid, pos)
    }

    /// Parses a field entry of exactly the slice's length.
    #[verifier::rlimit(30)]
    fn parse_entry(entry: &[u8]) -> (r: Result<AdsFieldInfo, AdsTypeInfoError>)
        requires
            entry@.len() >= 42,
            !(spec_field_entry(entry@) is Panic),
        ensures
            match spec_field_entry(entry@) {
                Outcome::Value(v) => r matches Ok(f) && f.spec_view() == v,
                Outcome::Error(err) => r == Err::<AdsFieldInfo, AdsTypeInfoError>(err),
                Outcome::Panic => false,
            },
    {
        let el = entry.len();
        let version = u32_from_le([entry[4], entry[5], entry[6], entry[7]]);
        let hash_value = u32_from_le([entry[8], entry[9], entry[10], entry[11]]);
        let type_hash_value = u32_from_le([entry[12], entry[13], entry[14], entry[15]]);
        let size = u32_from_le([entry[16], entry[17], entry[18], entry[19]]);
        let offset = u32_from_le([entry[20], entry[21], entry[22], entry[23]]);
        let type_id = AdsTypeId::from_bytes([entry[24], entry[25], entry[26], entry[27]]);
        let flags = AdsTypeFlags::from_bytes([entry[28], entry[29], entry[30], entry[31]]);
        let name_length = u16_from_le([entry[32], entry[33]]) as usize;
        let type_name_length = u16_from_le([entry[34], entry[35]]) as usize;
        let comment_length = u16_from_le([entry[36], entry[37]]) as usize;
        let name_end = Self::MIN_LENGTH + name_length + 1;
        let type_end = name_end + type_name_length + 1;
        let comment_end = type_end + comment_length + 1;
        if el < comment_end {
            return Err(AdsTypeInfoError::EntryLengthMismatch { expected: comment_end, got: el });
        }
        let name = decode_windows_1252(&entry[Self::MIN_LENGTH..name_end - 1]);
        let data_type_name = decode_windows_1252(&entry[name_end..type_end - 1]);
        let comment = decode_windows_1252(&entry[type_end..comment_end - 1]);
        let (guid, pos) = Self::parse_middle(entry, comment_end);
        let mut attributes: Vec<AdsAttribute> = Vec::new();
        assert(attr_views(attributes@) =~= Seq::<AttrView>::empty());
        if flags.has_attributes() && pos + 2 <= el {
            let attr_count = u16_from_le([entry[pos], entry[pos + 1]]) as usize;
            match parse_attr_list(entry, pos + 2, attr_count, true, false, &mut attributes) {
                Ok(_) => {},
                Err(e) => {
                    return Err(e);
                },
            }
        }
        Ok(AdsFieldInfo {
            version,
            hash_value,
            type_hash_value,
            size,
            offset,
            type_id,
            flags,
            name,
            data_type_name,
            comment,
            guid,
            attributes,
        })
    }
}

/// True when a field reads back as written: Windows-1252 strings that read
/// back and whose lengths fit their 16-bit fields, a type code that reads
/// back, a 16-byte GUID exactly when the `TYPE_GUID` flag is set, no method
/// section flagged (none is written), attributes that read back and fit
/// their count with the `ATTRIBUTES` flag set when there are any, and an
/// entry length that fits its 32-bit field with room for an attribute count
/// after it.
pub open spec fn field_writable(v: FieldInfoView) -> bool {
    &&& cp1252_readable(v.name) && v.name.len() < 65536
    &&& cp1252_readable(v.data_type_name) && v.data_type_name.len() < 65536
    &&& cp1252_readable(v.comment) && v.comment.len() < 65536
    &&& ads_type_id_canonical(v.type_id)
    &&& (v.flags & 0x80 == 0x80) == (v.guid is Some)
    &&& v.guid matches Some(g) ==> g.len() == 16
    &&& v.flags & 0x800 == 0
    &&& v.attributes.len() < 65536
    &&& forall|i: int| 0 <= i < v.attributes.len() ==> attr_writable(#[trigger] v.attributes[i])
    &&& v.attributes.len() > 0 ==> v.flags & 0x1000 == 0x1000
    &&& spec_field_size(v) + 2 <= u32::MAX
}

/// Where the strings of a field entry end.
pub open spec fn field_strings_end(v: FieldInfoView) -> int {
    (45 + v.name.len() + v.data_type_name.len() + v.comment.len()) as int
}

/// Where the attribute block of a field entry starts.
pub open spec fn field_attrs_start(v: FieldInfoView) -> int {
    field_strings_end(v) + (if v.flags & 0x80 == 0x80 { 16int } else { 0int }) + (if v.flags & 0x200 == 0x200 {
        v.size as int
    } else {
        0int
    })
}

/// The fields of the entry `e` hold those of the field `v`, where the
/// parser reads them.
#[verifier::opaque]
pub open spec fn field_fields_hold(e: Seq<u8>, v: FieldInfoView) -> bool {
    let n = v.name.len() as int;
    let t = v.data_type_name.len() as int;
    let c = v.comment.len() as int;
    let ce = field_strings_end(v);
    let pa = field_attrs_start(v);
    &&& field_writable(v)
    &&& e.len() == spec_field_size(v)
    &&& seq_u32(e, 4) == v.version
    &&& seq_u32(e, 8) == v.hash_value
    &&& seq_u32(e, 12) == v.type_hash_value
    &&& seq_u32(e, 16) == v.size
    &&& seq_u32(e, 20) == v.offset
    &&& ads_type_id_of(seq_u32(e, 24)) == v.type_id
    &&& seq_u32(e, 28) == v.flags
    &&& le_u16(e[32], e[33]) == n
    &&& le_u16(e[34], e[35]) == t
    &&& le_u16(e[36], e[37]) == c
    &&& le_u16(e[38], e[39]) == 0
    &&& le_u16(e[40], e[41]) == 0
    &&& e.subrange(42, 42 + n) == cp1252_encode(v.name)
    &&& e.subrange(43 + n, 43 + n + t) == cp1252_encode(v.data_type_name)
    &&& e.subrange(44 + n + t, 44 + n + t + c) == cp1252_encode(v.comment)
    &&& (v.guid matches Some(g) ==> e.subrange(ce, ce + 16) == g)
    &&& pa <= e.len()
    &&& v.flags & 0x1000 != 0x1000 ==> e.len() == pa
    &&& v.flags & 0x1000 == 0x1000 ==> pa + 2 <= e.len() && spec_attr_list(
        e,
        pa + 2,
        le_u16(e[pa], e[pa + 1]) as nat,
        true,
        false,
    ) == (v.attributes, Outcome::<int>::Value(e.len() as int))
}

/// What the parser gives for an entry whose fields hold those of `v`.
#[verifier::rlimit(60)]
proof fn lemma_field_parse_fields(e: Seq<u8>, v: FieldInfoView)
    requires
        field_fields_hold(e, v),
    ensures
        spec_field_entry(e) == Outcome::<FieldInfoView>::Value(v),
{
    reveal(field_fields_hold);
    lemma_cp1252_text_roundtrip(v.name);
    lemma_cp1252_text_roundtrip(v.data_type_name);
    lemma_cp1252_text_roundtrip(v.comment);
    let n = v.name.len() as int;
    let t = v.data_type_name.len() as int;
    let c = v.comment.len() as int;
    let el = e.len() as int;
    let name_end = 43 + n;
    let type_end = name_end + t + 1;
    let comment_end = type_end + c + 1;
    assert(comment_end == field_strings_end(v));
    assert(spec_text(e.subrange(42, name_end - 1)) == v.name);
    assert(spec_text(e.subrange(name_end, type_end - 1)) == v.data_type_name);
    assert(spec_text(e.subrange(type_end, comment_end - 1)) == v.comment);
    let flags = v.flags;
    assert(spec_skip_blocks(e, comment_end, 0) == Outcome::<int>::Value(comment_end));
    let p1 = comment_end;
    let has_guid = flags & 0x80 == 0x80 && p1 + 16 <= el;
    assert(has_guid == (flags & 0x80 == 0x80));
    let guid = if has_guid { Some(e.subrange(p1, p1 + 16)) } else { None::<Seq<u8>> };
    assert(guid == v.guid);
    let p2 = if has_guid { p1 + 16 } else { p1 };
    let p3 = if flags & 0x200 == 0x200 {
        if p2 + v.size < el { p2 + v.size } else { el }
    } else {
        p2
    };
    assert(p3 == field_attrs_start(v));
    assert(spec_field_middle(e, comment_end) == Outcome::<(Option<Seq<u8>>, int)>::Value((guid, p3)));
    let attrs = if flags & 0x1000 == 0x1000 && p3 + 2 <= el {
        spec_attr_list(e, p3 + 2, le_u16(e[p3], e[p3 + 1]) as nat, true, false)
    } else {
        (Seq::empty(), Outcome::Value(p3))
    };
    if flags & 0x1000 != 0x1000 {
        assert(v.attributes =~= Seq::<AttrView>::empty());
    }
    assert(attrs.0 == v.attributes);
    assert(attrs.1 is Value);
    let w = FieldInfoView {
        version: seq_u32(e, 4),
        hash_value: seq_u32(e, 8),
        type_hash_value: seq_u32(e, 12),
        size: seq_u32(e, 16),
        offset: seq_u32(e, 20),
        type_id: ads_type_id_of(seq_u32(e, 24)),
        flags,
        name: spec_text(e.subrange(42, name_end - 1)),
        data_type_name: spec_text(e.subrange(name_end, type_end - 1)),
        comment: spec_text(e.subrange(type_end, comment_end - 1)),
        guid,
        attributes: attrs.0,
    };
    assert(w == v);
    assert(spec_field_entry(e) == Outcome::<FieldInfoView>::Value(w));
}

/// The fields that the parser reads from a field header.
#[verifier::rlimit(60)]
proof fn lemma_field_head(b: Seq<u8>, v: FieldInfoView, el: u32)
    requires
        ads_type_id_canonical(v.type_id),
        b.len() >= 42,
        b.subrange(0, 42) == spec_field_head(v, el),
    ensures
        seq_u32(b, 0) == el,
        seq_u32(b, 4) == v.version,
        seq_u32(b, 8) == v.hash_value,
        seq_u32(b, 12) == v.type_hash_value,
        seq_u32(b, 16) == v.size,
        seq_u32(b, 20) == v.offset,
        ads_type_id_of(seq_u32(b, 24)) == v.type_id,
        seq_u32(b, 28) == v.flags,
        le_u16(b[32], b[33]) == (cp1252_bytes(v.name).len() % 65536) as u16,
        le_u16(b[34], b[35]) == (cp1252_bytes(v.data_type_name).len() % 65536) as u16,
        le_u16(b[36], b[37]) == (cp1252_bytes(v.comment).len() % 65536) as u16,
        le_u16(b[38], b[39]) == 0,
        le_u16(b[40], b[41]) == 0,
{
    let h = spec_field_head(v, el);
    assert(h.len() == 42);
    assert forall|i: int| 0 <= i < 42 implies b[i] == #[trigger] h[i] by {
        assert(b.subrange(0, 42)[i] == b[i]);
    }
    lemma_u32_roundtrip(el);
    lemma_u32_roundtrip(v.version);
    lemma_u32_roundtrip(v.hash_value);
    lemma_u32_roundtrip(v.type_hash_value);
    lemma_u32_roundtrip(v.size);
    lemma_u32_roundtrip(v.offset);
    lemma_u32_roundtrip(ads_type_id_code(v.type_id));
    lemma_u32_roundtrip(v.flags);
    lemma_ads_type_id_roundtrip(v.type_id);
    lemma_u16_roundtrip((cp1252_bytes(v.name).len() % 65536) as u16);
    lemma_u16_roundtrip((cp1252_bytes(v.data_type_name).len() % 65536) as u16);
    lemma_u16_roundtrip((cp1252_bytes(v.comment).len() % 65536) as u16);
    lemma_u16_roundtrip(0);
    assert(b[0] == h[0] && b[1] == h[1] && b[2] == h[2] && b[3] == h[3]);
    assert(b[4] == h[4] && b[5] == h[5] && b[6] == h[6] && b[7] == h[7]);
    assert(b[8] == h[8] && b[9] == h[9] && b[10] == h[10] && b[11] == h[11]);
    assert(b[12] == h[12] && b[13] == h[13] && b[14] == h[14] && b[15] == h[15]);
    assert(b[16] == h[16] && b[17] == h[17] && b[18] == h[18] && b[19] == h[19]);
    assert(b[20] == h[20] && b[21] == h[21] && b[22] == h[22] && b[23] == h[23]);
    assert(b[24] == h[24] && b[25] == h[25] && b[26] == h[26] && b[27] == h[27]);
    assert(b[28] == h[28] && b[29] == h[29] && b[30] == h[30] && b[31] == h[31]);
    assert(b[32] == h[32] && b[33] == h[33] && b[34] == h[34] && b[35] == h[35]);
    assert(b[36] == h[36] && b[37] == h[37] && b[38] == h[38] && b[39] == h[39]);
    assert(b[40] == h[40] && b[41] == h[41]);
}

/// The pieces of a writable field's bytes: header, strings, and the GUID,
/// copy mask and attribute blocks, whose lengths add up to its size.
proof fn lemma_field_layout(v: FieldInfoView)
    requires
        field_writable(v),
    ensures
        spec_field_bytes(v) == spec_field_head(v, spec_field_size(v) as u32) + spec_field_strings(v)
            + spec_field_guid_block(v) + spec_field_mask_block(v) + spec_field_attr_block(v),
        spec_field_head(v, spec_field_size(v) as u32).len() == 42,
        spec_field_strings(v).len() == field_strings_end(v) - 42,
        (spec_field_head(v, spec_field_size(v) as u32) + spec_field_strings(v) + spec_field_guid_block(v)
            + spec_field_mask_block(v)).len() == field_attrs_start(v),
        spec_field_bytes(v).len() == spec_field_size(v),
        cp1252_bytes(v.name) == cp1252_encode(v.name),
        cp1252_bytes(v.data_type_name) == cp1252_encode(v.data_type_name),
        cp1252_bytes(v.comment) == cp1252_encode(v.comment),
{
    reveal(spec_field_bytes);
    lemma_cp1252_text_roundtrip(v.name);
    lemma_cp1252_text_roundtrip(v.data_type_name);
    lemma_cp1252_text_roundtrip(v.comment);
    lemma_attrs_size_bytes(v.attributes);
    assert(saturating_usize(spec_field_size(v)) == spec_field_size(v));
}

/// A writable field's bytes are as long as its size, and their header holds
/// its fields.
#[verifier::rlimit(100)]
proof fn lemma_field_bytes_head(v: FieldInfoView)
    requires
        field_writable(v),
    ensures
        ({
            let b = spec_field_bytes(v);
            &&& b.len() == spec_field_size(v)
            &&& seq_u32(b, 0) == b.len()
            &&& seq_u32(b, 4) == v.version
            &&& seq_u32(b, 8) == v.hash_value
            &&& seq_u32(b, 12) == v.type_hash_value
            &&& seq_u32(b, 16) == v.size
            &&& seq_u32(b, 20) == v.offset
            &&& ads_type_id_of(seq_u32(b, 24)) == v.type_id
            &&& seq_u32(b, 28) == v.flags
            &&& le_u16(b[32], b[33]) == v.name.len()
            &&& le_u16(b[34], b[35]) == v.data_type_name.len()
            &&& le_u16(b[36], b[37]) == v.comment.len()
            &&& le_u16(b[38], b[39]) == 0
            &&& le_u16(b[40], b[41]) == 0
        }),
{
    lemma_field_layout(v);
    let b = spec_field_bytes(v);
    let el = spec_field_size(v);
    let head = spec_field_head(v, el as u32);
    let strings = spec_field_strings(v);
    let hs = head + strings;
    let rest = spec_field_guid_block(v) + spec_field_mask_block(v) + spec_field_attr_block(v);
    assert(b =~= hs + rest);
    lemma_subrange_left(hs, rest, 0, 42);
    lemma_subrange_left(head, strings, 0, 42);
    assert(head.subrange(0, 42) =~= head);
    lemma_field_head(b, v, el as u32);
}

/// The strings of a writable field's bytes are its name, type name and comment.
#[verifier::rlimit(60)]
proof fn lemma_field_bytes_strings(v: FieldInfoView)
    requires
        field_writable(v),
    ensures
        ({
            let b = spec_field_bytes(v);
            let n = v.name.len() as int;
            let t = v.data_type_name.len() as int;
            let c = v.comment.len() as int;
            &&& b.subrange(42, 42 + n) == cp1252_encode(v.name)
            &&& b.subrange(43 + n, 43 + n + t) == cp1252_encode(v.data_type_name)
            &&& b.subrange(44 + n + t, 44 + n + t + c) == cp1252_encode(v.comment)
        }),
{
    lemma_field_layout(v);
    let b = spec_field_bytes(v);
    let el = spec_field_size(v);
    let n = v.name.len() as int;
    let t = v.data_type_name.len() as int;
    let c = v.comment.len() as int;
    let head = spec_field_head(v, el as u32);
    let strings = spec_field_strings(v);
    let hs = head + strings;
    let rest = spec_field_guid_block(v) + spec_field_mask_block(v) + spec_field_attr_block(v);
    assert(b =~= hs + rest);
    assert(strings.subrange(0, n) =~= cp1252_encode(v.name));
    assert(strings.subrange(n + 1, n + 1 + t) =~= cp1252_encode(v.data_type_name));
    assert(strings.subrange(n + t + 2, n + t + 2 + c) =~= cp1252_encode(v.comment));
    lemma_subrange_right(head, strings, 0, n);
    lemma_subrange_right(head, strings, n + 1, n + 1 + t);
    lemma_subrange_right(head, strings, n + t + 2, n + t + 2 + c);
    lemma_subrange_left(hs, rest, 42, 42 + n);
    lemma_subrange_left(hs, rest, 43 + n, 43 + n + t);
    lemma_subrange_left(hs, rest, 44 + n + t, 44 + n + t + c);
    assert(b.subrange(42, 42 + n) == strings.subrange(0, n));
    assert(b.subrange(43 + n, 43 + n + t) == strings.subrange(n + 1, n + 1 + t));
    assert(b.subrange(44 + n + t, 44 + n + t + c) == strings.subrange(n + t + 2, n + t + 2 + c));
}

/// A writable field's bytes hold its GUID and its attribute block where the
/// parser reads them.
#[verifier::rlimit(60)]
proof fn lemma_field_bytes_back(v: FieldInfoView)
    requires
        field_writable(v),
    ensures
        ({
            let b = spec_field_bytes(v);
            let ce = field_strings_end(v);
            let pa = field_attrs_start(v);
            &&& (v.guid matches Some(g) ==> b.subrange(ce, ce + 16) == g)
            &&& pa <= b.len()
            &&& v.flags & 0x1000 != 0x1000 ==> b.len() == pa
            &&& v.flags & 0x1000 == 0x1000 ==> pa + 2 <= b.len() && spec_attr_list(
                b,
                pa + 2,
                le_u16(b[pa], b[pa + 1]) as nat,
                true,
                false,
            ) == (v.attributes, Outcome::<int>::Value(b.len() as int))
        }),
{
    lemma_field_layout(v);
    let b = spec_field_bytes(v);
    let hs = spec_field_head(v, spec_field_size(v) as u32) + spec_field_strings(v);
    let g = spec_field_guid_block(v);
    let m = spec_field_mask_block(v);
    let a = spec_field_attr_block(v);
    let hsgm = hs + g + m;
    assert(b == hsgm + a);
    if let Some(gv) = v.guid {
        assert(g == gv);
        assert(b =~= hs + (g + m + a));
        lemma_subrange_right(hs, g + m + a, 0, 16);
        assert((g + m + a).subrange(0, 16) =~= gv);
    }
    if v.flags & 0x1000 == 0x1000 {
        assert(a == u16_bytes((v.attributes.len() % 65536) as u16) + spec_attrs_bytes(v.attributes));
        lemma_attr_block_reads_back(b, hsgm, v.attributes, true);
    }
}

/// The bytes of a writable field hold its fields where the parser reads them.
proof fn lemma_field_bytes_fields(v: FieldInfoView)
    requires
        field_writable(v),
    ensures
        field_fields_hold(spec_field_bytes(v), v),
{
    reveal(field_fields_hold);
    lemma_field_bytes_head(v);
    lemma_field_bytes_strings(v);
    lemma_field_bytes_back(v);
}

/// Writing a field and parsing the bytes back gives the same field, and the
/// entry length read is the length written.
pub proof fn lemma_field_roundtrip(v: FieldInfoView)
    requires
        field_writable(v),
    ensures
        spec_parse_field(spec_field_bytes(v)) == Outcome::<(FieldInfoView, int)>::Value((v, spec_field_size(v))),
{
    let b = spec_field_bytes(v);
    lemma_field_bytes_head(v);
    lemma_field_bytes_fields(v);
    assert(b.subrange(0, b.len() as int) =~= b);
    lemma_field_parse_fields(b, v);
}

} // verus!
