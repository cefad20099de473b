//! Data types of the data type table, with their sub-items inlined, their
//! classification into categories, and the iteration over a table of them.

use vstd::prelude::*;
use crate::bytes::{le_u16, seq_u32, u16_from_le, u32_from_le};
use crate::codepage::decode_windows_1252;
use crate::error::AdsTypeInfoError;
use crate::symbol::array_info::AdsDataTypeArrayInfo;
use crate::symbol::attributes::AdsAttribute;
use crate::symbol::data_type_flags::AdsDataTypeFlags;
use crate::symbol::enum_info::{AdsEnumInfo, EnumInfoView};
use crate::symbol::guid::Guid;
use crate::symbol::method_info::method::{spec_parse_method, AdsMethodInfo, MethodInfoView};
use crate::symbol::parse::{attr_views, parse_attr_list, spec_attr_list, spec_text, AttrView, Outcome};
use crate::symbol::type_category::{
    implements_attribute, is_pointer_name, is_primitive_id, is_primitive_name, is_string_id, is_sub_range_name,
    leaf_category, lemma_primitive_ids_are_numeric_base_types, method_category, numeric_base_types, primitive_name,
    spec_leaf_category, spec_method_category, AdsTypeCategory,
};
use crate::text::{seq_starts_with, text_contains, text_contains_char, text_eq, text_starts_with};
use crate::symbol::refactor_info::{AdsRefactorInfo, RefactorInfoView};
use crate::symbol::type_id::{ads_type_id_of, AdsDataTypeId, AdsTypeId};
use crate::symbol::type_info::{
    array_views, enum_views, lemma_array_list_end, lemma_prepend_empty, lemma_prepend_items, method_views, parse_array_list,
    parse_enum_list, parse_tail_b, prepend_items, refactor_views, spec_array_list, spec_enum_list,
    spec_type_guid_mask, spec_type_tail_b,
};

verus! {

/// A data type as plain values, its sub-items included.
pub struct DataTypeView {
    pub version: u32,
    pub hash_value: u32,
    pub type_hash_value: u32,
    pub size: u32,
    pub offset: u32,
    pub type_id: AdsDataTypeId,
    pub flags: u32,
    pub name: Seq<char>,
    pub data_type_name: Seq<char>,
    pub comment: Seq<char>,
    pub array_infos: Seq<(i32, u32)>,
    pub sub_items: Seq<DataTypeView>,
    pub guid: Option<Seq<u8>>,
    pub method_infos: Seq<MethodInfoView>,
    pub attributes: Seq<AttrView>,
    pub enum_infos: Seq<EnumInfoView>,
    pub refactor_infos: Seq<RefactorInfoView>,
    pub platform_pointer_size: Option<u8>,
}

/// A data type of the data type table, with its sub-items inlined.
#[derive(Debug, PartialEq, Eq)]
pub struct AdsDataTypeInfo {
    version: u32,
    hash_value: u32,
    type_hash_value: u32,
    size: u32,
    offset: u32,
    type_id: AdsDataTypeId,
    flags: AdsDataTypeFlags,
    name: String,
    data_type_name: String,
    comment: String,
    array_infos: Vec<AdsDataTypeArrayInfo>,
    sub_items: Vec<AdsDataTypeInfo>,
    guid: Option<Guid>,
    method_infos: Vec<AdsMethodInfo>,
    attributes: Vec<AdsAttribute>,
    enum_infos: Vec<AdsEnumInfo>,
    refactor_infos: Vec<AdsRefactorInfo>,
    platform_pointer_size: Option<u8>,
}

/// The plain values of data types.
pub open spec fn data_type_views(s: Seq<AdsDataTypeInfo>) -> Seq<DataTypeView>
    decreases s,
{
    if s.len() == 0 {
        Seq::empty()
    } else {
        data_type_views(s.subrange(0, s.len() - 1)).push(s[s.len() - 1].spec_view())
    }
}

impl AdsDataTypeInfo {
    /// The data type as plain values.
    pub closed spec fn spec_view(self) -> DataTypeView
        decreases self,
    {
        DataTypeView {
            version: self.version,
            hash_value: self.hash_value,
            type_hash_value: self.type_hash_value,
            size: self.size,
            offset: self.offset,
            type_id: self.type_id,
            flags: self.flags.spec_bits(),
            name: self.name@,
            data_type_name: self.data_type_name@,
            comment: self.comment@,
            array_infos: array_views(self.array_infos@),
            sub_items: data_type_views(self.sub_items@),
            guid: match self.guid {
                Some(g) => Some(g.spec_bytes()),
                None => None,
            },
            method_infos: method_views(self.method_infos@),
            attributes: attr_views(self.attributes@),
            enum_infos: enum_views(self.enum_infos@),
            refactor_infos: refactor_views(self.refactor_infos@),
            platform_pointer_size: self.platform_pointer_size,
        }
    }
}

/// `count` method entries from `pos` on, and the position after them.
pub open spec fn spec_method_list(e: Seq<u8>, pos: int, count: nat) -> Outcome<(Seq<MethodInfoView>, int)>
    decreases count,
{
    if count == 0 {
        Outcome::Value((Seq::empty(), pos))
    } else if pos > e.len() {
        Outcome::Panic
    } else {
        match spec_parse_method(e.subrange(pos, e.len() as int)) {
            Outcome::Value((m, n)) => prepend_items(seq![m], spec_method_list(e, pos + n, (count - 1) as nat)),
            Outcome::Error(err) => Outcome::Error(err),
            Outcome::Panic => Outcome::Panic,
        }
    }
}

/// The method section at `pos`, present when the flags say so: a count,
/// then the entries.
pub open spec fn spec_data_type_methods(e: Seq<u8>, pos: int, flags: u32) -> Outcome<(Seq<MethodInfoView>, int)> {
    if flags & 0x800 != 0x800 {
        Outcome::Value((Seq::empty(), pos))
    } else if pos + 2 > e.len() {
        Outcome::Panic
    } else {
        spec_method_list(e, pos + 2, le_u16(e[pos], e[pos + 1]) as nat)
    }
}

/// The sections after the copy mask up to the enums: the methods, the
/// attributes, the standard enum sections and the position after them.
pub open spec fn spec_data_type_tail_a(e: Seq<u8>, pos: int, flags: u32, size: u32) -> Outcome<
    (Seq<MethodInfoView>, Seq<AttrView>, Seq<EnumInfoView>, int),
> {
    match spec_data_type_methods(e, pos, flags) {
        Outcome::Value((ms, p1)) => {
            let attrs = if flags & 0x1000 == 0x1000 && p1 + 2 <= e.len() {
                spec_attr_list(e, p1 + 2, le_u16(e[p1], e[p1 + 1]) as nat, false, false)
            } else {
                (Seq::empty(), Outcome::Value(p1))
            };
            match attrs.1 {
                Outcome::Value(p2) => {
                    let enums = if flags & 0x2000 == 0x2000 && p2 + 2 <= e.len() {
                        spec_enum_list(e, p2 + 2, le_u16(e[p2], e[p2 + 1]) as nat, size as int, false)
                    } else {
                        Outcome::Value((Seq::empty(), p2))
                    };
                    match enums {
                        Outcome::Value((es, p3)) => Outcome::Value((ms, attrs.0, es, p3)),
                        Outcome::Error(err) => Outcome::Error(err),
                        Outcome::Panic => Outcome::Panic,
                    }
                },
                Outcome::Error(err) => Outcome::Error(err),
                Outcome::Panic => Outcome::Panic,
            }
        },
        Outcome::Error(err) => Outcome::Error(err),
        Outcome::Panic => Outcome::Panic,
    }
}

/// `count` data type entries at the start of `d`, one after the other, and
/// the number of bytes they take.
pub open spec fn spec_sub_items(d: Seq<u8>, count: nat) -> Outcome<(Seq<DataTypeView>, int)>
    decreases d.len(), 1int, count,
{
    if count == 0 {
        Outcome::Value((Seq::empty(), 0))
    } else if d.len() < 42 {
        Outcome::Error(AdsTypeInfoError::TooShort { expected: 42, got: d.len() as usize })
    } else {
        let el = seq_u32(d, 0) as int;
        if d.len() < el {
            Outcome::Error(AdsTypeInfoError::EntryLengthMismatch { expected: el as usize, got: d.len() as usize })
        } else if el < 42 {
            Outcome::Panic
        } else {
            match spec_data_type_entry(d.subrange(0, el)) {
                Outcome::Value(v) => match spec_sub_items(d.subrange(el, d.len() as int), (count - 1) as nat) {
                    Outcome::Value((s, m)) => Outcome::Value((seq![v] + s, el + m)),
                    Outcome::Error(err) => Outcome::Error(err),
                    Outcome::Panic => Outcome::Panic,
                },
                Outcome::Error(err) => Outcome::Error(err),
                Outcome::Panic => Outcome::Panic,
            }
        }
    }
}

/// The data type that an entry of exactly `e.len()` bytes (at least 42) holds.
pub open spec fn spec_data_type_entry(e: Seq<u8>) -> Outcome<DataTypeView>
    decreases e.len(), 0int, 0int,
{
    let el = e.len() as int;
    let name_end = 43 + le_u16(e[32], e[33]);
    let type_end = name_end + le_u16(e[34], e[35]) + 1;
    let comment_end = type_end + le_u16(e[36], e[37]) + 1;
    let size = seq_u32(e, 16);
    let flags = seq_u32(e, 28);
    let sub_count = le_u16(e[40], e[41]) as nat;
    if el < comment_end {
        Outcome::Error(AdsTypeInfoError::EntryLengthMismatch { expected: comment_end as usize, got: el as usize })
    } else {
        match spec_array_list(e, comment_end, le_u16(e[38], e[39]) as nat) {
            Outcome::Value((arrays, p1)) => {
                let subs = if sub_count == 0 {
                    Outcome::Value((Seq::empty(), 0))
                } else if p1 > el {
                    Outcome::Panic
                } else {
                    proof {
                        lemma_array_list_end(e, comment_end, le_u16(e[38], e[39]) as nat);
                    }
                    spec_sub_items(e.subrange(p1, el), sub_count)
                };
                match subs {
                    Outcome::Value((sub_items, n)) => {
                        let gm = spec_type_guid_mask(e, p1 + n, flags, size);
                        match spec_data_type_tail_a(e, gm.1, flags, size) {
                            Outcome::Value((ms, attrs, es, p3)) => match spec_type_tail_b(e, p3, flags, es) {
                                Outcome::Value((es2, rs)) => Outcome::Value(
                                    DataTypeView {
                                        version: seq_u32(e, 4),
                                        hash_value: seq_u32(e, 8),
                                        type_hash_value: seq_u32(e, 12),
                                        size,
                                        offset: seq_u32(e, 20),
                                        type_id: ads_type_id_of(seq_u32(e, 24)),
                                        flags,
                                        name: spec_text(e.subrange(42, name_end - 1)),
                                        data_type_name: spec_text(e.subrange(name_end, type_end - 1)),
                                        comment: spec_text(e.subrange(type_end, comment_end - 1)),
                                        array_infos: arrays,
                                        sub_items,
                                        guid: gm.0,
                                        method_infos: ms,
                                        attributes: attrs,
                                        enum_infos: es2,
                                        refactor_infos: rs,
                                        platform_pointer_size: None,
                                    },
                                ),
                                Outcome::Error(err) => Outcome::Error(err),
                                Outcome::Panic => Outcome::Panic,
                            },
                            Outcome::Error(err) => Outcome::Error(err),
                            Outcome::Panic => Outcome::Panic,
                        }
                    },
                    Outcome::Error(err) => Outcome::Error(err),
                    Outcome::Panic => Outcome::Panic,
                }
            },
            Outcome::Error(err) => Outcome::Error(err),
            Outcome::Panic => Outcome::Panic,
        }
    }
}

/// The data type entry at the start of `d` and its length.
pub open spec fn spec_parse_data_type(d: Seq<u8>) -> Outcome<(DataTypeView, int)> {
    if d.len() < 42 {
        Outcome::Error(AdsTypeInfoError::TooShort { expected: 42, got: d.len() as usize })
    } else {
        let el = seq_u32(d, 0) as int;
        if d.len() < el {
            Outcome::Error(AdsTypeInfoError::EntryLengthMismatch { expected: el as usize, got: d.len() as usize })
        } else if el < 42 {
            Outcome::Panic
        } else {
            match spec_data_type_entry(d.subrange(0, el)) {
                Outcome::Value(v) => Outcome::Value((v, el)),
                Outcome::Error(err) => Outcome::Error(err),
                Outcome::Panic => Outcome::Panic,
            }
        }
    }
}

/// A sub-item list outcome with `s` put in front of the items and `n` added
/// to the bytes taken.
pub open spec fn prepend_at(s: Seq<DataTypeView>, n: int, o: Outcome<(Seq<DataTypeView>, int)>) -> Outcome<
    (Seq<DataTypeView>, int),
> {
    match o {
        Outcome::Value((t, m)) => Outcome::Value((s + t, n + m)),
        Outcome::Error(e) => Outcome::Error(e),
        Outcome::Panic => Outcome::Panic,
    }
}

/// The category of a data type: how its memory is laid out.
#[derive(Debug, Clone, Copy, PartialEq, Eq, Structural, Hash, Default)]
pub enum AdsDataTypeCategory {
    /// Unknown or not initialised.
    #[default]
    Unknown,
    /// A simple base type (`BOOL`, `INT`, `REAL`, ...).
    Primitive,
    /// Another name for a base type.
    Alias,
    /// An enumeration.
    Enum,
    /// An array.
    Array,
    /// A structure.
    Struct,
    /// A function block instance.
    FunctionBlock,
    /// A program instance.
    Program,
    /// A function instance.
    Function,
    /// A sub-range type.
    SubRange,
    /// A string type (`STRING`, `WSTRING`).
    String,
    /// A bitset.
    Bitset,
    /// A pointer (`POINTER TO ...`, `PVOID`).
    Pointer,
    /// A union: fields that overlap in memory.
    Union,
    /// A reference (`REFERENCE TO ...`).
    Reference,
    /// An interface pointer.
    Interface,
}

/// The data type category of the same name as a type category.
pub open spec fn spec_data_category_of(c: AdsTypeCategory) -> AdsDataTypeCategory {
    match c {
        AdsTypeCategory::Unknown => AdsDataTypeCategory::Unknown,
        AdsTypeCategory::Primitive => AdsDataTypeCategory::Primitive,
        AdsTypeCategory::Alias => AdsDataTypeCategory::Alias,
        AdsTypeCategory::Enum => AdsDataTypeCategory::Enum,
        AdsTypeCategory::Array => AdsDataTypeCategory::Array,
        AdsTypeCategory::Struct => AdsDataTypeCategory::Struct,
        AdsTypeCategory::FunctionBlock => AdsDataTypeCategory::FunctionBlock,
        AdsTypeCategory::Program => AdsDataTypeCategory::Program,
        AdsTypeCategory::Function => AdsDataTypeCategory::Function,
        AdsTypeCategory::SubRange => AdsDataTypeCategory::SubRange,
        AdsTypeCategory::String => AdsDataTypeCategory::String,
        AdsTypeCategory::Bitset => AdsDataTypeCategory::Bitset,
        AdsTypeCategory::Pointer => AdsDataTypeCategory::Pointer,
        AdsTypeCategory::Union => AdsDataTypeCategory::Union,
        AdsTypeCategory::Reference => AdsDataTypeCategory::Reference,
        AdsTypeCategory::Interface => AdsDataTypeCategory::Interface,
    }
}

/// The data type category of the same name as a type category.
fn data_category_of(c: AdsTypeCategory) -> (r: AdsDataTypeCategory)
    ensures
        r == spec_data_category_of(c),
{
    match c {
        AdsTypeCategory::Unknown => AdsDataTypeCategory::Unknown,
        AdsTypeCategory::Primitive => AdsDataTypeCategory::Primitive,
        AdsTypeCategory::Alias => AdsDataTypeCategory::Alias,
        AdsTypeCategory::Enum => AdsDataTypeCategory::Enum,
        AdsTypeCategory::Array => AdsDataTypeCategory::Array,
        AdsTypeCategory::Struct => AdsDataTypeCategory::Struct,
        AdsTypeCategory::FunctionBlock => AdsDataTypeCategory::FunctionBlock,
        AdsTypeCategory::Program => AdsDataTypeCategory::Program,
        AdsTypeCategory::Function => AdsDataTypeCategory::Function,
        AdsTypeCategory::SubRange => AdsDataTypeCategory::SubRange,
        AdsTypeCategory::String => AdsDataTypeCategory::String,
        AdsTypeCategory::Bitset => AdsDataTypeCategory::Bitset,
        AdsTypeCategory::Pointer => AdsDataTypeCategory::Pointer,
        AdsTypeCategory::Union => AdsDataTypeCategory::Union,
        AdsTypeCategory::Reference => AdsDataTypeCategory::Reference,
        AdsTypeCategory::Interface => AdsDataTypeCategory::Interface,
    }
}

/// The views of a list of data types are the views of its items.
pub proof fn lemma_data_type_views(s: Seq<AdsDataTypeInfo>)
    ensures
        data_type_views(s).len() == s.len(),
        forall|i: int| 0 <= i < s.len() ==> #[trigger] data_type_views(s)[i] == s[i].spec_view(),
    decreases s.len(),
{
    if s.len() > 0 {
        lemma_data_type_views(s.subrange(0, s.len() - 1));
    }
}

/// Scanning the sub-items `subs` from `i` on for memory overlap, with
/// `max_bit` the end in bits of those laid out so far: properties and static
/// items take no memory; an item overlaps when it starts before that end.
/// `None` when a bit position leaves the range of `u32`.
pub open spec fn spec_overlap_scan(subs: Seq<DataTypeView>, i: int, max_bit: u32) -> Option<bool>
    decreases subs.len() - i,
{
    if i < 0 || i >= subs.len() {
        Some(false)
    } else {
        let s = subs[i];
        if s.flags & 0x40 == 0x40 || s.flags & 0x20000 == 0x20000 {
            spec_overlap_scan(subs, i + 1, max_bit)
        } else {
            let bits = s.flags & 0x20 == 0x20;
            let offset = if bits { s.offset as int } else { s.offset * 8 };
            let size = if bits { s.size as int } else { s.size * 8 };
            if offset > u32::MAX {
                None
            } else if offset < max_bit {
                Some(true)
            } else if size > u32::MAX || max_bit + size > u32::MAX {
                None
            } else {
                spec_overlap_scan(subs, i + 1, (max_bit + size) as u32)
            }
        }
    }
}

/// Whether sub-items overlap in memory, as a union's members do; `None` when
/// a bit position leaves the range of `u32`.
pub open spec fn spec_field_overlap(subs: Seq<DataTypeView>) -> Option<bool> {
    if subs.len() <= 1 {
        Some(false)
    } else {
        spec_overlap_scan(subs, 0, 0)
    }
}

/// The category of a data type with sub-items or methods.
pub open spec fn spec_complex_category(v: DataTypeView) -> AdsDataTypeCategory {
    if v.method_infos.len() > 0 {
        spec_data_category_of(spec_method_category(v.sub_items.len() > 0, v.size, v.attributes, v.platform_pointer_size))
    } else if v.sub_items[0].offset > 0 {
        AdsDataTypeCategory::FunctionBlock
    } else {
        AdsDataTypeCategory::Struct
    }
}

/// The union check is reached: sub-items but no base type name and no
/// methods, after none of the earlier categories applied.
pub open spec fn spec_reaches_union_check(v: DataTypeView) -> bool {
    &&& !(v.flags & 0x800000 == 0x800000 || is_pointer_name(v.name))
    &&& !(v.flags & 0x4 == 0x4 || seq_starts_with(v.name, "REFERENCE TO"@))
    &&& v.array_infos.len() == 0
    &&& v.flags & 0x2000 != 0x2000
    &&& !is_sub_range_name(v.name)
    &&& !(v.data_type_name.len() > 0 && v.sub_items.len() == 0 && v.method_infos.len() == 0)
    &&& !is_primitive_id(v.type_id)
    &&& !is_string_id(v.type_id)
    &&& !is_primitive_name(v.name)
    &&& v.sub_items.len() > 0
    &&& v.data_type_name.len() == 0
    &&& v.method_infos.len() == 0
}

/// The category that a data type falls in.
pub open spec fn spec_data_type_category(v: DataTypeView) -> AdsDataTypeCategory {
    if v.flags & 0x800000 == 0x800000 || is_pointer_name(v.name) {
        AdsDataTypeCategory::Pointer
    } else if v.flags & 0x4 == 0x4 || seq_starts_with(v.name, "REFERENCE TO"@) {
        AdsDataTypeCategory::Reference
    } else if v.array_infos.len() > 0 {
        AdsDataTypeCategory::Array
    } else if v.flags & 0x2000 == 0x2000 {
        AdsDataTypeCategory::Enum
    } else if is_sub_range_name(v.name) {
        AdsDataTypeCategory::SubRange
    } else if v.data_type_name.len() > 0 && v.sub_items.len() == 0 && v.method_infos.len() == 0 {
        AdsDataTypeCategory::Alias
    } else if is_primitive_id(v.type_id) {
        AdsDataTypeCategory::Primitive
    } else if is_string_id(v.type_id) {
        AdsDataTypeCategory::String
    } else if is_primitive_name(v.name) {
        AdsDataTypeCategory::Primitive
    } else if v.sub_items.len() > 0 && v.data_type_name.len() == 0 && v.method_infos.len() == 0
        && spec_field_overlap(v.sub_items) == Some(true) {
        AdsDataTypeCategory::Union
    } else if v.sub_items.len() > 0 || v.method_infos.len() > 0 {
        spec_complex_category(v)
    } else {
        spec_data_category_of(spec_leaf_category(v.name, v.size, v.attributes))
    }
}

/// Reads `count` method entries from `pos` on.
fn parse_method_list(entry: &[u8], pos: usize, count: usize) -> (r: Result<(Vec<AdsMethodInfo>, usize), AdsTypeInfoError>)
    requires
        pos <= entry@.len(),
        !(spec_method_list(entry@, pos as int, count as nat) is Panic),
    ensures
        match spec_method_list(entry@, pos as int, count as nat) {
            Outcome::Value((s, p)) => r matches Ok((v, q)) && method_views(v@) == s && q == p && q <= entry@.len(),
            Outcome::Error(err) => r == Err::<(Vec<AdsMethodInfo>, usize), AdsTypeInfoError>(err),
            Outcome::Panic => false,
        },
{
    let el = entry.len();
    let mut out: Vec<AdsMethodInfo> = Vec::new();
    let mut p = pos;
    let mut i: usize = 0;
    assert(method_views(out@) =~= Seq::<MethodInfoView>::empty());
    proof {
        lemma_prepend_empty(spec_method_list(entry@, pos as int, count as nat));
    }
    while i < count
        invariant
            i <= count,
            p <= el,
            el == entry@.len(),
            !(spec_method_list(entry@, pos as int, count as nat) is Panic),
            spec_method_list(entry@, pos as int, count as nat) == prepend_items(
                method_views(out@),
                spec_method_list(entry@, p as int, (count - i) as nat),
            ),
        decreases count - i,
    {
        assert(!(spec_method_list(entry@, p as int, (count - i) as nat) is Panic));
        let (m, n) = match AdsMethodInfo::try_from_slice(&entry[p..el]) {
            Ok(x) => x,
            Err(e) => {
                return Err(e);
            },
        };
        let ghost rest = spec_method_list(entry@, p + n, (count - i - 1) as nat);
        proof {
            lemma_prepend_items(method_views(out@), seq![m.spec_view()], rest);
        }
        let ghost before = method_views(out@);
        out.push(m);
        assert(method_views(out@) =~= before + seq![m.spec_view()]);
        p = p + n;
        i = i + 1;
    }
    assert(method_views(out@) + Seq::<MethodInfoView>::empty() =~= method_views(out@));
    Ok((out, p))
}

/// Reads the method, attribute and enum sections from `pos` on.
#[verifier::rlimit(30)]
fn parse_data_type_tail_a(entry: &[u8], pos: usize, flags: AdsDataTypeFlags, size: u32) -> (r: Result<
    (Vec<AdsMethodInfo>, Vec<AdsAttribute>, Vec<AdsEnumInfo>, usize),
    AdsTypeInfoError,
>)
    requires
        pos <= entry@.len(),
        !(spec_data_type_tail_a(entry@, pos as int, flags.spec_bits(), size) is Panic),
    ensures
        match spec_data_type_tail_a(entry@, pos as int, flags.spec_bits(), size) {
            Outcome::Value((ms, a, es, p)) => r matches Ok((mv, av, ev, q)) && method_views(mv@) == ms
                && attr_views(av@) == a && enum_views(ev@) == es && q == p,
            Outcome::Error(err) => r == Err::<
                (Vec<AdsMethodInfo>, Vec<AdsAttribute>, Vec<AdsEnumInfo>, usize),
                AdsTypeInfoError,
            >(err),
            Outcome::Panic => false,
        },
{
    let el = entry.len();
    let ghost bits = flags.spec_bits();
    let mut pos = pos;
    let mut method_infos: Vec<AdsMethodInfo> = Vec::new();
    assert(method_views(method_infos@) =~= Seq::<MethodInfoView>::empty());
    if flags.has_method_infos() {
        let method_count = u16_from_le([entry[pos], entry[pos + 1]]) as usize;
        match parse_method_list(entry, pos + 2, method_count) {
            Ok((v, p)) => {
                method_infos = v;
                pos = p;
            },
            Err(e) => {
                return Err(e);
            },
        }
    }
    let ghost p1 = pos as int;
    let ghost attrs = if bits & 0x1000 == 0x1000 && p1 + 2 <= el {
        spec_attr_list(entry@, p1 + 2, le_u16(entry@[p1], entry@[p1 + 1]) as nat, false, false)
    } else {
        (Seq::<AttrView>::empty(), Outcome::<int>::Value(p1))
    };
    let mut attributes: Vec<AdsAttribute> = Vec::new();
    assert(attr_views(attributes@) =~= Seq::<AttrView>::empty());
    if flags.has_attributes() && el - pos >= 2 {
        let attr_count = u16_from_le([entry[pos], entry[pos + 1]]) as usize;
        match parse_attr_list(entry, pos + 2, attr_count, false, false, &mut attributes) {
            Ok(p) => {
                pos = p;
            },
            Err(e) => {
                return Err(e);
            },
        }
    }
    assert(attrs.1 == Outcome::<int>::Value(pos as int));
    assert(attr_views(attributes@) == attrs.0);
    let mut enums: Vec<AdsEnumInfo> = Vec::new();
    assert(enum_views(enums@) =~= Seq::<EnumInfoView>::empty());
    if flags.has_enum_infos() && pos <= el && el - pos >= 2 {
        let enum_count = u16_from_le([entry[pos], entry[pos + 1]]) as usize;
        match parse_enum_list(entry, pos + 2, enum_count, size as usize, false) {
            Ok((v, p)) => {
                enums = v;
                pos = p;
            },
            Err(e) => {
                return Err(e);
            },
        }
    }
    Ok((method_infos, attributes, enums, pos))
}

/// Putting two item lists in front one after the other is putting their
/// concatenation in front.
proof fn lemma_prepend_at(a: Seq<DataTypeView>, p: int, b: Seq<DataTypeView>, n: int, o: Outcome<(Seq<DataTypeView>, int)>)
    ensures
        prepend_at(a, p, prepend_at(b, n, o)) == prepend_at(a + b, p + n, o),
{
    match o {
        Outcome::Value((t, m)) => {
            assert(a + (b + t) =~= (a + b) + t);
        },
        _ => {},
    }
}

/// The views of a list with one more item.
proof fn lemma_data_type_views_push(s: Seq<AdsDataTypeInfo>, x: AdsDataTypeInfo)
    ensures
        data_type_views(s.push(x)) == data_type_views(s).push(x.spec_view()),
{
    assert(s.push(x).subrange(0, s.len() as int) =~= s);
}

/// Reads `count` data type entries at the start of `d`, one after the other;
/// returns them and the number of bytes they take.
fn parse_sub_items(d: &[u8], count: usize) -> (r: Result<(Vec<AdsDataTypeInfo>, usize), AdsTypeInfoError>)
    requires
        !(spec_sub_items(d@, count as nat) is Panic),
    ensures
        match spec_sub_items(d@, count as nat) {
            Outcome::Value((s, n)) => r matches Ok((v, m)) && data_type_views(v@) == s && m == n && m <= d@.len(),
            Outcome::Error(err) => r == Err::<(Vec<AdsDataTypeInfo>, usize), AdsTypeInfoError>(err),
            Outcome::Panic => false,
        },
    decreases d@.len(), 2int,
{
    let len = d.len();
    let mut out: Vec<AdsDataTypeInfo> = Vec::new();
    let mut p: usize = 0;
    let mut i: usize = 0;
    assert(data_type_views(out@) =~= Seq::<DataTypeView>::empty());
    assert(d@.subrange(0, len as int) =~= d@);
    proof {
        match spec_sub_items(d@, count as nat) {
            Outcome::Value((t, m)) => {
                assert(Seq::<DataTypeView>::empty() + t =~= t);
            },
            _ => {},
        }
    }
    while i < count
        invariant
            i <= count,
            p <= len,
            len == d@.len(),
            !(spec_sub_items(d@, count as nat) is Panic),
            spec_sub_items(d@, count as nat) == prepend_at(
                data_type_views(out@),
                p as int,
                spec_sub_items(d@.subrange(p as int, len as int), (count - i) as nat),
            ),
        decreases count - i,
    {
        let ghost rest = d@.subrange(p as int, len as int);
        assert(!(spec_sub_items(rest, (count - i) as nat) is Panic));
        let (item, n) = match AdsDataTypeInfo::try_from_slice(&d[p..len]) {
            Ok(x) => x,
            Err(e) => {
                return Err(e);
            },
        };
        proof {
            assert(rest.subrange(n as int, rest.len() as int) =~= d@.subrange(p + n, len as int));
            lemma_prepend_at(
                data_type_views(out@),
                p as int,
                seq![item.spec_view()],
                n as int,
                spec_sub_items(d@.subrange(p + n, len as int), (count - i - 1) as nat),
            );
            lemma_data_type_views_push(out@, item);
        }
        let ghost before = data_type_views(out@);
        out.push(item);
        assert(data_type_views(out@) =~= before + seq![item.spec_view()]);
        p = p + n;
        i = i + 1;
    }
    assert(data_type_views(out@) + Seq::<DataTypeView>::empty() =~= data_type_views(out@));
    Ok((out, p))
}

impl AdsDataTypeInfo {
    /// Size of the fixed header in bytes.
    pub const MIN_LENGTH: usize = 42;

    /// The data type with the pointer size of the platform set (or cleared).
    pub fn with_platform_pointer_size(self, size: Option<u8>) -> (r: AdsDataTypeInfo)
        ensures
            r.spec_view() == (DataTypeView { platform_pointer_size: size, ..self.spec_view() }),
    {
        AdsDataTypeInfo { platform_pointer_size: size, ..self }
    }

    /// The version of the description.
    pub fn version(&self) -> (r: u32)
        ensures
            r == self.spec_view().version,
    {
        self.version
    }

    /// The hash of the type, for change detection, or the getter code offset.
    pub fn hash_value(&self) -> (r: u32)
        ensures
            r == self.spec_view().hash_value,
    {
        self.hash_value
    }

    /// The hash of the base type, or the setter code offset.
    pub fn type_hash_value(&self) -> (r: u32)
        ensures
            r == self.spec_view().type_hash_value,
    {
        self.type_hash_value
    }

    /// The size in bytes (in bits when the type holds bit values).
    pub fn size(&self) -> (r: u32)
        ensures
            r == self.spec_view().size,
    {
        self.size
    }

    /// The offset of this item in its parent type; zero for root types.
    pub fn offset(&self) -> (r: u32)
        ensures
            r == self.spec_view().offset,
    {
        self.offset
    }

    /// The primitive type of the base or element type.
    pub fn data_type(&self) -> (r: AdsDataTypeId)
        ensures
            r == self.spec_view().type_id,
    {
        self.type_id
    }

    /// The type flags.
    pub fn flags(&self) -> (r: AdsDataTypeFlags)
        ensures
            r.spec_bits() == self.spec_view().flags,
    {
        self.flags
    }

    /// The name of the type or item.
    pub fn name(&self) -> (r: &str)
        ensures
            r@ == self.spec_view().name,
    {
        self.name.as_str()
    }

    /// The name of the base or element type; empty for primitive root types.
    pub fn data_type_name(&self) -> (r: &str)
        ensures
            r@ == self.spec_view().data_type_name,
    {
        self.data_type_name.as_str()
    }

    /// The comment of the type.
    pub fn comment(&self) -> (r: &str)
        ensures
            r@ == self.spec_view().comment,
    {
        self.comment.as_str()
    }

    /// The array dimensions; empty but for array types.
    pub fn array_infos(&self) -> (r: &[AdsDataTypeArrayInfo])
        ensures
            array_views(r@) == self.spec_view().array_infos,
    {
        self.array_infos.as_slice()
    }

    /// The sub-items, inlined; empty but for structured types.
    pub fn sub_items(&self) -> (r: &[AdsDataTypeInfo])
        ensures
            data_type_views(r@) == self.spec_view().sub_items,
    {
        self.sub_items.as_slice()
    }

    /// The GUID of the type, when the entry carries one.
    pub fn guid(&self) -> (r: Option<&Guid>)
        ensures
            match self.spec_view().guid {
                Some(b) => r matches Some(g) && g.spec_bytes() == b,
                None => r is None,
            },
    {
        match &self.guid {
            Some(g) => Some(g),
            None => None,
        }
    }

    /// The methods of the type.
    pub fn method_infos(&self) -> (r: &[AdsMethodInfo])
        ensures
            method_views(r@) == self.spec_view().method_infos,
    {
        self.method_infos.as_slice()
    }

    /// The attributes of the type.
    pub fn attributes(&self) -> (r: &[AdsAttribute])
        ensures
            attr_views(r@) == self.spec_view().attributes,
    {
        self.attributes.as_slice()
    }

    /// The variants of an enum type.
    pub fn enum_infos(&self) -> (r: &[AdsEnumInfo])
        ensures
            enum_views(r@) == self.spec_view().enum_infos,
    {
        self.enum_infos.as_slice()
    }

    /// The refactoring history of the type.
    pub fn refactor_infos(&self) -> (r: &[AdsRefactorInfo])
        ensures
            refactor_views(r@) == self.spec_view().refactor_infos,
    {
        self.refactor_infos.as_slice()
    }

    /// The pointer size of the platform (4 or 8 bytes), when it was set; it
    /// tells interfaces from function blocks.
    pub fn platform_pointer_size(&self) -> (r: Option<u8>)
        ensures
            r == self.spec_view().platform_pointer_size,
    {
        self.platform_pointer_size
    }

    /// Sets (or clears) the pointer size of the platform.
    pub fn set_platform_pointer_size(&mut self, size: Option<u8>)
        ensures
            final(self).spec_view() == (DataTypeView { platform_pointer_size: size, ..old(self).spec_view() }),
    {
        self.platform_pointer_size = size;
    }

    /// Whether the sub-items overlap in memory, as a union's members do.
    fn has_field_offset_overlap(&self) -> (r: bool)
        requires
            spec_field_overlap(self.spec_view().sub_items) is Some,
        ensures
            spec_field_overlap(self.spec_view().sub_items) == Some(r),
    {
        let n = self.sub_items.len();
        let ghost subs = self.spec_view().sub_items;
        proof {
            lemma_data_type_views(self.sub_items@);
        }
        if n <= 1 {
            return false;
        }
        let mut max_bit_pos: u32 = 0;
        let mut i: usize = 0;
        while i < n
            invariant
                n == self.sub_items@.len(),
                n > 1,
                subs == self.spec_view().sub_items,
                subs == data_type_views(self.sub_items@),
                subs.len() == n,
                forall|k: int| 0 <= k < n ==> #[trigger] subs[k] == self.sub_items@[k].spec_view(),
                i <= n,
                spec_overlap_scan(subs, 0, 0) is Some,
                spec_overlap_scan(subs, 0, 0) == spec_overlap_scan(subs, i as int, max_bit_pos),
            decreases n - i,
        {
            let sub = &self.sub_items[i];
            assert(subs[i as int] == sub.spec_view());
            let f = sub.flags();
            if f.is_prop_item() || f.is_static() {
                i = i + 1;
                continue;
            }
            let bit_offset = if f.is_bit_values() { sub.offset() } else { sub.offset() * 8 };
            if bit_offset < max_bit_pos {
                return true;
            }
            let bit_size = if f.is_bit_values() { sub.size() } else { sub.size() * 8 };
            max_bit_pos = max_bit_pos + bit_size;
            i = i + 1;
        }
        false
    }

    /// The category of the data type.
    pub fn category(&self) -> (r: AdsDataTypeCategory)
        requires
            spec_reaches_union_check(self.spec_view()) ==> spec_field_overlap(self.spec_view().sub_items) is Some,
        ensures
            r == spec_data_type_category(self.spec_view()),
    {
        let name = self.name.as_str();
        if self.flags.is_plc_pointer_type() || text_eq(name, "PVOID") || text_eq(name, "PCCH") || text_starts_with(
            name,
            "POINTER TO",
        ) {
            return AdsDataTypeCategory::Pointer;
        }
        if self.flags.is_reference_to() || text_starts_with(name, "REFERENCE TO") {
            return AdsDataTypeCategory::Reference;
        }
        if !self.array_infos.is_empty() {
            return AdsDataTypeCategory::Array;
        }
        if self.flags.has_enum_infos() {
            return AdsDataTypeCategory::Enum;
        }
        if text_contains(name, "..") && text_contains_char(name, '(') && text_contains_char(name, ')') {
            return AdsDataTypeCategory::SubRange;
        }
        proof {
            lemma_data_type_views(self.sub_items@);
        }
        let type_name_empty = self.data_type_name.as_str().is_empty();
        if !type_name_empty && self.sub_items.is_empty() && self.method_infos.is_empty() {
            return AdsDataTypeCategory::Alias;
        }
        match self.type_id {
            AdsDataTypeId::Int8 | AdsDataTypeId::UInt8 | AdsDataTypeId::Int16 | AdsDataTypeId::UInt16
            | AdsDataTypeId::Int32 | AdsDataTypeId::UInt32 | AdsDataTypeId::Int64 | AdsDataTypeId::UInt64
            | AdsDataTypeId::Real32 | AdsDataTypeId::Real64 | AdsDataTypeId::Real80 | AdsDataTypeId::Bit => {
                return AdsDataTypeCategory::Primitive;
            },
            AdsDataTypeId::String | AdsDataTypeId::WString => {
                return AdsDataTypeCategory::String;
            },
            _ => {
                if primitive_name(name) {
                    return AdsDataTypeCategory::Primitive;
                }
            },
        }
        if !self.sub_items.is_empty() && type_name_empty && self.method_infos.is_empty()
            && self.has_field_offset_overlap() {
            return AdsDataTypeCategory::Union;
        }
        if !self.sub_items.is_empty() || !self.method_infos.is_empty() {
            if !self.method_infos.is_empty() {
                return data_category_of(
                    method_category(
                        !self.sub_items.is_empty(),
                        self.size,
                        self.attributes.as_slice(),
                        self.platform_pointer_size,
                    ),
                );
            }
            if self.sub_items[0].offset() > 0 {
                return AdsDataTypeCategory::FunctionBlock;
            }
            return AdsDataTypeCategory::Struct;
        }
        data_category_of(leaf_category(name, self.size, self.attributes.as_slice()))
    }

    /// Parses a data type entry at the start of a slice, its sub-items
    /// included; returns it and the entry length.
    pub fn try_from_slice(data: &[u8]) -> (r: Result<(AdsDataTypeInfo, usize), AdsTypeInfoError>)
        requires
            !(spec_parse_data_type(data@) is Panic),
        ensures
            match spec_parse_data_type(data@) {
                Outcome::Value((v, n)) => r matches Ok((t, m)) && t.spec_view() == v && m == n,
                Outcome::Error(err) => r == Err::<(AdsDataTypeInfo, usize), AdsTypeInfoError>(err),
                Outcome::Panic => false,
            },
        decreases data@.len(), 1int,
    {
        let len = data.len();
        if len < Self::MIN_LENGTH {
            return Err(AdsTypeInfoError::TooShort { expected: Self::MIN_LENGTH, got: len });
        }
        let entry_length = u32_from_le([data[0], data[1], data[2], data[3]]) as usize;
        if len < entry_length {
            return Err(AdsTypeInfoError::EntryLengthMismatch { expected: entry_length, got: len });
        }
        match Self::parse_entry(&data[0..entry_length]) {
            Ok(t) => Ok((t, entry_length)),
            Err(e) => Err(e),
        }
    }

    /// Parses a data type entry of exactly the slice's length.
    #[verifier::rlimit(40)]
    fn parse_entry(entry: &[u8]) -> (r: Result<AdsDataTypeInfo, AdsTypeInfoError>)
        requires
            entry@.len() >= 42,
            !(spec_data_type_entry(entry@) is Panic),
        ensures
            match spec_data_type_entry(entry@) {
                Outcome::Value(v) => r matches Ok(t) && t.spec_view() == v,
                Outcome::Error(err) => r == Err::<AdsDataTypeInfo, AdsTypeInfoError>(err),
                Outcome::Panic => false,
            },
        decreases entry@.len(), 0int,
    {
        let el = entry.len();
        let version = u32_from_le([entry[4], entry[5], entry[6], entry[7]]);
        let hash_value = u32_from_le([entry[8], entry[9], entry[10], entry[11]]);
        let type_hash_value = u32_from_le([entry[12], entry[13], entry[14], entry[15]]);
        let size = u32_from_le([entry[16], entry[17], entry[18], entry[19]]);
        let offset = u32_from_le([entry[20], entry[21], entry[22], entry[23]]);
        let type_id = AdsDataTypeId::from_bytes([entry[24], entry[25], entry[26], entry[27]]);
        let flags = AdsDataTypeFlags::from_bytes([entry[28], entry[29], entry[30], entry[31]]);
        let name_length = u16_from_le([entry[32], entry[33]]) as usize;
        let type_name_length = u16_from_le([entry[34], entry[35]]) as usize;
        let comment_length = u16_from_le([entry[36], entry[37]]) as usize;
        let array_dim_count = u16_from_le([entry[38], entry[39]]) as usize;
        let sub_item_count = u16_from_le([entry[40], entry[41]]) as usize;
        let name_end = Self::MIN_LENGTH + name_length + 1;
        let type_end = name_end + type_name_length + 1;
        let comment_end = type_end + comment_length + 1;
        if el < comment_end {
            return Err(AdsTypeInfoError::EntryLengthMismatch { expected: comment_end, got: el });
        }
        let name = decode_windows_1252(&entry[Self::MIN_LENGTH..name_end - 1]);
        let data_type_name = decode_windows_1252(&entry[name_end..type_end - 1]);
        let comment = decode_windows_1252(&entry[type_end..comment_end - 1]);
        let (array_infos, pos) = match parse_array_list(entry, comment_end, array_dim_count) {
            Ok(x) => x,
            Err(e) => {
                return Err(e);
            },
        };
        proof {
            lemma_array_list_end(entry@, comment_end as int, array_dim_count as nat);
        }
        let mut sub_items: Vec<AdsDataTypeInfo> = Vec::new();
        assert(data_type_views(sub_items@) =~= Seq::<DataTypeView>::empty());
        let mut pos = pos;
        if sub_item_count > 0 {
            match parse_sub_items(&entry[pos..el], sub_item_count) {
                Ok((v, n)) => {
                    sub_items = v;
                    pos = pos + n;
                },
                Err(e) => {
                    return Err(e);
                },
            }
        }
        let mut guid: Option<Guid> = None;
        if flags.has_type_guid() && el - pos >= 16 {
            guid = match Guid::try_from_slice(&entry[pos..pos + 16]) {
                Ok(g) => Some(g),
                Err(e) => {
                    return Err(AdsTypeInfoError::InvalidGuid(e));
                },
            };
            pos = pos + 16;
        }
        if flags.has_copy_mask() {
            // the legacy copy mask section is skipped
            pos = if el - pos > size as usize { pos + size as usize } else { el };
        }
        let (method_infos, attributes, enums, pos) = match parse_data_type_tail_a(entry, pos, flags, size) {
            Ok(x) => x,
            Err(e) => {
                return Err(e);
            },
        };
        let (enum_infos, refactor_infos) = match parse_tail_b(entry, pos, flags.bits(), enums) {
            Ok(x) => x,
            Err(e) => {
                return Err(e);
            },
        };
        Ok(AdsDataTypeInfo {
            version,
            hash_value,
            type_hash_value,
            size,
            offset,
            type_id,
            flags,
            name,
            data_type_name,
            comment,
            array_infos,
            sub_items,
            guid,
            method_infos,
            attributes,
            enum_infos,
            refactor_infos,
            platform_pointer_size: None,
        })
    }
}

/// One step over a table of data type entries from `cursor` on: the entry
/// read there, carrying `ptr_size` as its platform pointer size (none at the
/// end of the table), and the cursor after it. A table too short for the
/// length field or for the entry's length ends the iteration with an error,
/// and so does an entry that declares a length of zero (after the error of
/// parsing it).
pub open spec fn spec_next_data_type(d: Seq<u8>, cursor: int, ptr_size: Option<u8>) -> (
    Option<Outcome<DataTypeView>>,
    int,
) {
    if cursor >= d.len() {
        (None, cursor)
    } else if cursor + 4 > d.len() {
        (Some(Outcome::Error(AdsTypeInfoError::TooShort { expected: (cursor + 4) as usize, got: d.len() as usize })), d.len() as int)
    } else {
        let el = seq_u32(d, cursor) as int;
        if cursor + el > d.len() {
            (
                Some(
                    Outcome::Error(
                        AdsTypeInfoError::EntryLengthMismatch { expected: el as usize, got: (d.len() - cursor) as usize },
                    ),
                ),
                d.len() as int,
            )
        } else {
            (
                Some(
                    match spec_parse_data_type(d.subrange(cursor, cursor + el)) {
                        Outcome::Value((v, _)) => Outcome::Value(DataTypeView { platform_pointer_size: ptr_size, ..v }),
                        Outcome::Error(err) => Outcome::Error(err),
                        Outcome::Panic => Outcome::Panic,
                    },
                ),
                if el == 0 { d.len() as int } else { cursor + el },
            )
        }
    }
}

/// The step result as the executable value it stands for.
pub open spec fn next_data_type_matches(
    r: Option<Result<AdsDataTypeInfo, AdsTypeInfoError>>,
    s: Option<Outcome<DataTypeView>>,
) -> bool {
    match s {
        None => r is None,
        Some(Outcome::Value(v)) => r matches Some(Ok(t)) && t.spec_view() == v,
        Some(Outcome::Error(err)) => r == Some(Err::<AdsDataTypeInfo, AdsTypeInfoError>(err)),
        Some(Outcome::Panic) => false,
    }
}

/// Reads the data type entry of a table at `cursor`, sets its platform
/// pointer size, and moves the cursor to the next entry. When the table is
/// too short for the length field or for the entry, or when the entry
/// declares a length of zero, the cursor moves to the end, so that the
/// iteration stops; an entry that fails to parse still moves the cursor past
/// it.
pub fn parse_next_entry(data: &[u8], cursor: &mut usize, platform_pointer_size: Option<u8>) -> (r: Option<
    Result<AdsDataTypeInfo, AdsTypeInfoError>,
>)
    requires
        data@.len() <= isize::MAX,
        !(spec_next_data_type(data@, *old(cursor) as int, platform_pointer_size).0 matches Some(Outcome::Panic)),
    ensures
        *final(cursor) == spec_next_data_type(data@, *old(cursor) as int, platform_pointer_size).1,
        next_data_type_matches(r, spec_next_data_type(data@, *old(cursor) as int, platform_pointer_size).0),
{
    let len = data.len();
    let c = *cursor;
    if c >= len {
        return None;
    }
    if len - c < 4 {
        let err = AdsTypeInfoError::TooShort { expected: c + 4, got: len };
        *cursor = len;
        return Some(Err(err));
    }
    let entry_length = u32_from_le([data[c], data[c + 1], data[c + 2], data[c + 3]]) as usize;
    if entry_length > len - c {
        let err = AdsTypeInfoError::EntryLengthMismatch { expected: entry_length, got: len - c };
        *cursor = len;
        return Some(Err(err));
    }
    let end = c + entry_length;
    *cursor = if entry_length == 0 { len } else { end };
    match AdsDataTypeInfo::try_from_slice(&data[c..end]) {
        Ok((info, _)) => Some(Ok(info.with_platform_pointer_size(platform_pointer_size))),
        Err(e) => Some(Err(e)),
    }
}

/// Iterates over a table of data type entries held in a borrowed slice.
/// An entry that fails to parse is yielded as an error and skipped by its
/// length field.
pub struct AdsDataTypeIterator<'a> {
    data: &'a [u8],
    cursor: usize,
    platform_pointer_size: Option<u8>,
}

impl<'a> AdsDataTypeIterator<'a> {
    /// The table.
    pub closed spec fn spec_data(self) -> Seq<u8> {
        self.data@
    }

    /// The position of the next entry.
    pub closed spec fn spec_cursor(self) -> int {
        self.cursor as int
    }

    /// The platform pointer size given to the entries.
    pub closed spec fn spec_ptr_size(self) -> Option<u8> {
        self.platform_pointer_size
    }

    /// Creates an iterator over a table, at its first entry.
    pub fn new(data: &'a [u8]) -> (r: AdsDataTypeIterator<'a>)
        ensures
            r.spec_data() == data@,
            r.spec_cursor() == 0,
            r.spec_ptr_size() is None,
    {
        AdsDataTypeIterator { data, cursor: 0, platform_pointer_size: None }
    }

    /// The iterator with the platform pointer size that its entries get.
    pub fn with_platform_pointer_size(self, platform_pointer_size: Option<u8>) -> (r: AdsDataTypeIterator<'a>)
        ensures
            r.spec_data() == self.spec_data(),
            r.spec_cursor() == self.spec_cursor(),
            r.spec_ptr_size() == platform_pointer_size,
    {
        AdsDataTypeIterator { platform_pointer_size, ..self }
    }

    /// An iterator over a copy of the table, at the same position.
    pub fn into_owned(self) -> (r: AdsDataTypeIteratorOwned)
        ensures
            r.spec_data() == self.spec_data(),
            r.spec_cursor() == self.spec_cursor(),
            r.spec_ptr_size() == self.spec_ptr_size(),
    {
        AdsDataTypeIteratorOwned {
            buffer: vstd::slice::slice_to_vec(self.data),
            cursor: self.cursor,
            platform_pointer_size: self.platform_pointer_size,
        }
    }

    /// An iterator over a copy of the table, at the same position.
    pub fn to_owned(&self) -> (r: AdsDataTypeIteratorOwned)
        ensures
            r.spec_data() == self.spec_data(),
            r.spec_cursor() == self.spec_cursor(),
            r.spec_ptr_size() == self.spec_ptr_size(),
    {
        AdsDataTypeIteratorOwned {
            buffer: vstd::slice::slice_to_vec(self.data),
            cursor: self.cursor,
            platform_pointer_size: self.platform_pointer_size,
        }
    }

    /// The next entry, or `None` at the end of the table.
    pub fn next(&mut self) -> (r: Option<Result<AdsDataTypeInfo, AdsTypeInfoError>>)
        requires
            old(self).spec_data().len() <= isize::MAX,
            !(spec_next_data_type(old(self).spec_data(), old(self).spec_cursor(), old(self).spec_ptr_size()).0 matches Some(
                Outcome::Panic,
            )),
        ensures
            final(self).spec_data() == old(self).spec_data(),
            final(self).spec_ptr_size() == old(self).spec_ptr_size(),
            final(self).spec_cursor() == spec_next_data_type(
                old(self).spec_data(),
                old(self).spec_cursor(),
                old(self).spec_ptr_size(),
            ).1,
            next_data_type_matches(
                r,
                spec_next_data_type(old(self).spec_data(), old(self).spec_cursor(), old(self).spec_ptr_size()).0,
            ),
    {
        parse_next_entry(self.data, &mut self.cursor, self.platform_pointer_size)
    }
}

/// Iterates over a table of data type entries held in an owned buffer.
pub struct AdsDataTypeIteratorOwned {
    buffer: Vec<u8>,
    cursor: usize,
    platform_pointer_size: Option<u8>,
}

impl AdsDataTypeIteratorOwned {
    /// The table.
    pub closed spec fn spec_data(self) -> Seq<u8> {
        self.buffer@
    }

    /// The position of the next entry.
    pub closed spec fn spec_cursor(self) -> int {
        self.cursor as int
    }

    /// The platform pointer size given to the entries.
    pub closed spec fn spec_ptr_size(self) -> Option<u8> {
        self.platform_pointer_size
    }

    /// Creates an iterator over a table, at its first entry.
    pub fn new(buffer: Vec<u8>) -> (r: AdsDataTypeIteratorOwned)
        ensures
            r.spec_data() == buffer@,
            r.spec_cursor() == 0,
            r.spec_ptr_size() is None,
    {
        AdsDataTypeIteratorOwned { buffer, cursor: 0, platform_pointer_size: None }
    }

    /// The iterator with the platform pointer size that its entries get.
    pub fn with_platform_pointer_size(self, platform_pointer_size: Option<u8>) -> (r: AdsDataTypeIteratorOwned)
        ensures
            r.spec_data() == self.spec_data(),
            r.spec_cursor() == self.spec_cursor(),
            r.spec_ptr_size() == platform_pointer_size,
    {
        AdsDataTypeIteratorOwned { platform_pointer_size, ..self }
    }

    /// A borrowed iterator over the same table at the same position; moving
    /// it does not move this one.
    pub fn as_view(&self) -> (r: AdsDataTypeIterator<'_>)
        ensures
            r.spec_data() == self.spec_data(),
            r.spec_cursor() == self.spec_cursor(),
            r.spec_ptr_size() == self.spec_ptr_size(),
    {
        AdsDataTypeIterator {
            data: self.buffer.as_slice(),
            cursor: self.cursor,
            platform_pointer_size: self.platform_pointer_size,
        }
    }

    /// The next entry, or `None` at the end of the table.
    pub fn next(&mut self) -> (r: Option<Result<AdsDataTypeInfo, AdsTypeInfoError>>)
        requires
            old(self).spec_data().len() <= isize::MAX,
            !(spec_next_data_type(old(self).spec_data(), old(self).spec_cursor(), old(self).spec_ptr_size()).0 matches Some(
                Outcome::Panic,
            )),
        ensures
            final(self).spec_data() == old(self).spec_data(),
            final(self).spec_ptr_size() == old(self).spec_ptr_size(),
            final(self).spec_cursor() == spec_next_data_type(
                old(self).spec_data(),
                old(self).spec_cursor(),
                old(self).spec_ptr_size(),
            ).1,
            next_data_type_matches(
                r,
                spec_next_data_type(old(self).spec_data(), old(self).spec_cursor(), old(self).spec_ptr_size()).0,
            ),
    {
        parse_next_entry(self.buffer.as_slice(), &mut self.cursor, self.platform_pointer_size)
    }
}

/// Each step of the data type table iteration keeps the cursor within the table and
/// never moves it back: it yields nothing exactly when the cursor is at or
/// past the end, and otherwise moves the cursor forward, so that the
/// iteration ends. An entry of nonzero length that fits in the table is
/// stepped over by its declared length, whether it parses or not, so that
/// the next step starts at the next entry.
pub proof fn lemma_next_data_type_progress(d: Seq<u8>, cursor: int, ptr_size: Option<u8>)
    requires
        0 <= cursor,
    ensures
        ({
            let step = spec_next_data_type(d, cursor, ptr_size);
            &&& (step.0 is None) == (cursor >= d.len())
            &&& step.0 is None ==> step.1 == cursor
            &&& step.0 is Some ==> cursor <= step.1 <= d.len()
            &&& step.0 is Some ==> step.1 > cursor
            &&& cursor + 4 <= d.len() && 0 < seq_u32(d, cursor) && cursor + seq_u32(d, cursor) <= d.len() ==> step.1 == cursor + seq_u32(d, cursor)
        }),
{
}

/// None of the rules before the base-type rule applies to `v`: it is not a
/// pointer, a reference, an array, an enum, a sub-range or an alias.
pub open spec fn reaches_data_base_type_rule(v: DataTypeView) -> bool {
    &&& v.flags & 0x800000 != 0x800000
    &&& !is_pointer_name(v.name)
    &&& v.flags & 0x4 != 0x4
    &&& !seq_starts_with(v.name, "REFERENCE TO"@)
    &&& v.array_infos.len() == 0
    &&& v.flags & 0x2000 != 0x2000
    &&& !is_sub_range_name(v.name)
    &&& !(v.data_type_name.len() > 0 && v.sub_items.len() == 0 && v.method_infos.len() == 0)
}

/// A data type that none of the earlier rules catches and whose base type is
/// a numeric or bit type of the protocol is primitive, whatever its size,
/// sub-items, methods or name: an `LREAL` (base type `Real64`, 8 bytes) is
/// primitive, not an interface.
pub proof fn lemma_numeric_data_base_type_is_primitive(v: DataTypeView)
    requires
        reaches_data_base_type_rule(v),
        numeric_base_types().contains(v.type_id),
    ensures
        spec_data_type_category(v) == AdsDataTypeCategory::Primitive,
{
    lemma_primitive_ids_are_numeric_base_types(v.type_id);
}

/// A data type that none of the earlier rules catches and whose base type is
/// a string type is a string.
pub proof fn lemma_string_data_base_type_is_string(v: DataTypeView)
    requires
        reaches_data_base_type_rule(v),
        v.type_id == AdsTypeId::String || v.type_id == AdsTypeId::WString,
    ensures
        spec_data_type_category(v) == AdsDataTypeCategory::String,
{
}

/// A data type flagged as a PLC pointer, or named `PVOID`, `PCCH` or
/// `POINTER TO ...`, is a pointer, whatever else it carries.
pub proof fn lemma_data_pointer_marks_give_pointer(v: DataTypeView)
    requires
        v.flags & 0x800000 == 0x800000 || v.name == "PVOID"@ || v.name == "PCCH"@ || seq_starts_with(
            v.name,
            "POINTER TO"@,
        ),
    ensures
        spec_data_type_category(v) == AdsDataTypeCategory::Pointer,
{
}

/// A data type that is no pointer and is flagged as a reference, or named
/// `REFERENCE TO ...`, is a reference.
pub proof fn lemma_data_reference_marks_give_reference(v: DataTypeView)
    requires
        v.flags & 0x800000 != 0x800000,
        !is_pointer_name(v.name),
        v.flags & 0x4 == 0x4 || seq_starts_with(v.name, "REFERENCE TO"@),
    ensures
        spec_data_type_category(v) == AdsDataTypeCategory::Reference,
{
}

} // verus!
