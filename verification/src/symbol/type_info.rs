//! Data type descriptions of the type table, and the iteration over a table
//! of them.

use vstd::prelude::*;
use crate::bytes::{le_u16, seq_u32, u16_from_le, u32_from_le};
use crate::codepage::decode_windows_1252;
use crate::error::AdsTypeInfoError;
use crate::symbol::array_info::{spec_array_info_of, AdsDataTypeArrayInfo};
use crate::symbol::attributes::AdsAttribute;
use crate::symbol::enum_info::{spec_extend_enum, spec_parse_enum, AdsEnumInfo, EnumInfoView};
use crate::symbol::field_info::{spec_parse_field, AdsFieldInfo, FieldInfoView};
use crate::symbol::guid::Guid;
use crate::symbol::method_info::method::{spec_parse_method, AdsMethodInfo, MethodInfoView};
use crate::symbol::parse::{attr_views, parse_attr_list, spec_attr_list, spec_text, AttrView, Outcome};
use crate::symbol::refactor_info::{lemma_refactor_chain_end, spec_refactor_chain, AdsRefactorInfo, RefactorInfoView};
use crate::symbol::type_flags::AdsTypeFlags;
use crate::symbol::type_id::{ads_type_id_of, AdsTypeId};

verus! {

/// A list outcome with `s` put in front of the items.
pub open spec fn prepend_items<T>(s: Seq<T>, o: Outcome<(Seq<T>, int)>) -> Outcome<(Seq<T>, int)> {
    match o {
        Outcome::Value((t, p)) => Outcome::Value((s + t, p)),
        Outcome::Error(e) => Outcome::Error(e),
        Outcome::Panic => Outcome::Panic,
    }
}

/// Putting two sequences in front one after the other is putting their
/// concatenation in front.
pub proof fn lemma_prepend_items<T>(a: Seq<T>, b: Seq<T>, o: Outcome<(Seq<T>, int)>)
    ensures
        prepend_items(a, prepend_items(b, o)) == prepend_items(a + b, o),
{
    match o {
        Outcome::Value((t, p)) => {
            assert(a + (b + t) =~= (a + b) + t);
        },
        _ => {},
    }
}

/// Putting nothing in front leaves a list outcome as it is.
pub proof fn lemma_prepend_empty<T>(o: Outcome<(Seq<T>, int)>)
    ensures
        prepend_items(Seq::empty(), o) == o,
{
    match o {
        Outcome::Value((t, p)) => {
            assert(Seq::<T>::empty() + t =~= t);
        },
        _ => {},
    }
}

/// The plain values of array dimensions.
pub open spec fn array_views(v: Seq<AdsDataTypeArrayInfo>) -> Seq<(i32, u32)> {
    v.map_values(|a: AdsDataTypeArrayInfo| a.spec_fields())
}

/// The plain values of fields.
pub open spec fn field_views(v: Seq<AdsFieldInfo>) -> Seq<FieldInfoView> {
    v.map_values(|f: AdsFieldInfo| f.spec_view())
}

/// The plain values of methods.
pub open spec fn method_views(v: Seq<AdsMethodInfo>) -> Seq<MethodInfoView> {
    v.map_values(|m: AdsMethodInfo| m.spec_view())
}

/// The plain values of enum variants.
pub open spec fn enum_views(v: Seq<AdsEnumInfo>) -> Seq<EnumInfoView> {
    v.map_values(|e: AdsEnumInfo| e.spec_view())
}

/// The plain values of refactoring entries.
pub open spec fn refactor_views(v: Seq<AdsRefactorInfo>) -> Seq<RefactorInfoView> {
    v.map_values(|r: AdsRefactorInfo| r.spec_view())
}

/// `count` array dimensions of 8 bytes each from `pos` on, and the position
/// after them.
pub open spec fn spec_array_list(e: Seq<u8>, pos: int, count: nat) -> Outcome<(Seq<(i32, u32)>, int)>
    decreases count,
{
    if count == 0 {
        Outcome::Value((Seq::empty(), pos))
    } else if pos + 8 > e.len() {
        Outcome::Panic
    } else {
        prepend_items(seq![spec_array_info_of(e.subrange(pos, pos + 8))], spec_array_list(e, pos + 8, (count - 1) as nat))
    }
}

/// Array dimensions end no earlier than they start.
pub proof fn lemma_array_list_end(e: Seq<u8>, pos: int, count: nat)
    ensures
        spec_array_list(e, pos, count) matches Outcome::Value((_, p)) ==> p >= pos,
    decreases count,
{
    if count > 0 && pos + 8 <= e.len() {
        lemma_array_list_end(e, pos + 8, (count - 1) as nat);
    }
}

/// `count` field entries from `pos` on, and the position after them.
pub open spec fn spec_field_list(e: Seq<u8>, pos: int, count: nat) -> Outcome<(Seq<FieldInfoView>, int)>
    decreases count,
{
    if count == 0 {
        Outcome::Value((Seq::empty(), pos))
    } else if pos > e.len() {
        Outcome::Panic
    } else {
        match spec_parse_field(e.subrange(pos, e.len() as int)) {
            Outcome::Value((f, n)) => prepend_items(seq![f], spec_field_list(e, pos + n, (count - 1) as nat)),
            Outcome::Error(err) => Outcome::Error(err),
            Outcome::Panic => Outcome::Panic,
        }
    }
}

/// Up to `count` standard enum sections from `pos` on, whose values are
/// `value_size` bytes wide; with `stop_at_end` the list ends once the
/// position reaches the end of `e`.
pub open spec fn spec_enum_list(e: Seq<u8>, pos: int, count: nat, value_size: int, stop_at_end: bool) -> Outcome<
    (Seq<EnumInfoView>, int),
>
    decreases count,
{
    if count == 0 {
        Outcome::Value((Seq::empty(), pos))
    } else if pos > e.len() {
        Outcome::Panic
    } else {
        match spec_parse_enum(e.subrange(pos, e.len() as int), value_size) {
            Outcome::Value((v, n)) => if stop_at_end && pos + n >= e.len() {
                Outcome::Value((seq![v], pos + n))
            } else {
                prepend_items(seq![v], spec_enum_list(e, pos + n, (count - 1) as nat, value_size, stop_at_end))
            },
            Outcome::Error(err) => Outcome::Error(err),
            Outcome::Panic => Outcome::Panic,
        }
    }
}

/// The extended sections of the variants `es`, read in order from `pos` on;
/// a variant is extended only while four bytes of `e` are left at the position.
pub open spec fn spec_extend_enums(e: Seq<u8>, pos: int, es: Seq<EnumInfoView>) -> Outcome<(Seq<EnumInfoView>, int)>
    decreases es.len(),
{
    if es.len() == 0 {
        Outcome::Value((Seq::empty(), pos))
    } else if pos + 4 <= e.len() {
        let x = spec_extend_enum(es[0], e.subrange(pos, e.len() as int));
        match x.1 {
            Outcome::Value(n) => if pos + n > usize::MAX {
                Outcome::Panic
            } else {
                prepend_items(seq![x.0], spec_extend_enums(e, pos + n, es.drop_first()))
            },
            Outcome::Error(err) => Outcome::Error(err),
            Outcome::Panic => Outcome::Panic,
        }
    } else {
        prepend_items(seq![es[0]], spec_extend_enums(e, pos, es.drop_first()))
    }
}

/// Skipping up to `count` 16-byte blocks from `pos` on, each only while it
/// fits in `e`.
pub open spec fn spec_skip_fixed16(e: Seq<u8>, pos: int, count: nat) -> int
    decreases count,
{
    if count == 0 {
        pos
    } else if pos + 16 <= e.len() {
        spec_skip_fixed16(e, pos + 16, (count - 1) as nat)
    } else {
        spec_skip_fixed16(e, pos, (count - 1) as nat)
    }
}

/// A data type description as plain values.
pub struct TypeInfoView {
    pub version: u32,
    pub hash_value: u32,
    pub type_hash_value: u32,
    pub size: u32,
    pub type_id: AdsTypeId,
    pub flags: u32,
    pub name: Seq<char>,
    pub data_type_name: Seq<char>,
    pub comment: Seq<char>,
    pub array_infos: Seq<(i32, u32)>,
    pub field_infos: Seq<FieldInfoView>,
    pub guid: Option<Seq<u8>>,
    pub method_infos: Seq<MethodInfoView>,
    pub attributes: Seq<AttrView>,
    pub enum_infos: Seq<EnumInfoView>,
    pub refactor_infos: Seq<RefactorInfoView>,
}

/// `count` method entries from `pos` on, read while at least four bytes (the
/// length field of an entry) are left: where fewer are left the list ends
/// early. The result holds the methods and the position after them.
pub open spec fn spec_type_method_list(e: Seq<u8>, pos: int, count: nat) -> Outcome<(Seq<MethodInfoView>, int)>
    decreases count,
{
    if count == 0 || pos + 4 > e.len() {
        Outcome::Value((Seq::empty(), pos))
    } else {
        match spec_parse_method(e.subrange(pos, e.len() as int)) {
            Outcome::Value((m, n)) => prepend_items(seq![m], spec_type_method_list(e, pos + n, (count - 1) as nat)),
            Outcome::Error(err) => Outcome::Error(err),
            Outcome::Panic => Outcome::Panic,
        }
    }
}

/// The method section at `pos`, present when the flags say so: a count,
/// then the entries.
pub open spec fn spec_type_methods(e: Seq<u8>, pos: int, flags: u32) -> Outcome<(Seq<MethodInfoView>, int)> {
    if flags & 0x800 != 0x800 {
        Outcome::Value((Seq::empty(), pos))
    } else if pos + 2 > e.len() {
        Outcome::Panic
    } else {
        spec_type_method_list(e, pos + 2, le_u16(e[pos], e[pos + 1]) as nat)
    }
}

/// The attribute section at `pos`, read when the flags say so and a count
/// fits; the list ends at the end of the entry.
pub open spec fn spec_type_attrs(e: Seq<u8>, pos: int, flags: u32) -> (Seq<AttrView>, Outcome<int>) {
    if flags & 0x1000 == 0x1000 && pos + 2 <= e.len() {
        spec_attr_list(e, pos + 2, le_u16(e[pos], e[pos + 1]) as nat, true, false)
    } else {
        (Seq::empty(), Outcome::Value(pos))
    }
}

/// The enum section at `pos`, read when the flags say so and a count fits.
pub open spec fn spec_type_enums(e: Seq<u8>, pos: int, flags: u32, size: u32) -> Outcome<(Seq<EnumInfoView>, int)> {
    if flags & 0x2000 == 0x2000 && pos + 2 <= e.len() {
        spec_enum_list(e, pos + 2, le_u16(e[pos], e[pos + 1]) as nat, size as int, true)
    } else {
        Outcome::Value((Seq::empty(), pos))
    }
}

/// The refactoring chain at `pos`, read when the flags say so.
pub open spec fn spec_type_refactors(e: Seq<u8>, pos: int, flags: u32) -> Outcome<(Seq<RefactorInfoView>, int)> {
    if flags & 0x1000000 != 0x1000000 {
        Outcome::Value((Seq::empty(), pos))
    } else if pos > e.len() {
        Outcome::Panic
    } else {
        match spec_refactor_chain(e.subrange(pos, e.len() as int), 0) {
            Ok((rs, n)) => Outcome::Value((rs, pos + n)),
            Err(err) => Outcome::Error(err),
        }
    }
}

/// The position after the extended flags and the variant section.
pub open spec fn spec_type_variant(e: Seq<u8>, pos: int, flags: u32) -> Outcome<int> {
    let p = if flags & 0x80000000 == 0x80000000 { pos + 4 } else { pos };
    if p > usize::MAX {
        Outcome::Panic
    } else if flags & 0x10000000 == 0x10000000 && p + 2 <= e.len() {
        Outcome::Value(spec_skip_fixed16(e, p + 2, le_u16(e[p], e[p + 1]) as nat))
    } else {
        Outcome::Value(p)
    }
}

/// The sections after the copy mask up to the enums: the methods, the
/// attributes, the standard enum sections and the position after them.
pub open spec fn spec_type_tail_a(e: Seq<u8>, pos: int, flags: u32, size: u32) -> Outcome<
    (Seq<MethodInfoView>, Seq<AttrView>, Seq<EnumInfoView>, int),
> {
    match spec_type_methods(e, pos, flags) {
        Outcome::Value((ms, p1)) => {
            let attrs = spec_type_attrs(e, p1, flags);
            match attrs.1 {
                Outcome::Value(p2) => match spec_type_enums(e, p2, flags, size) {
                    Outcome::Value((es, p3)) => Outcome::Value((ms, attrs.0, es, p3)),
                    Outcome::Error(err) => Outcome::Error(err),
                    Outcome::Panic => Outcome::Panic,
                },
                Outcome::Error(err) => Outcome::Error(err),
                Outcome::Panic => Outcome::Panic,
            }
        },
        Outcome::Error(err) => Outcome::Error(err),
        Outcome::Panic => Outcome::Panic,
    }
}

/// The sections after the enums: the refactoring chain, the extended flags,
/// the variant section and the extended enum sections, applied to the
/// variants `es`. The result is the variants and the chain.
pub open spec fn spec_type_tail_b(e: Seq<u8>, pos: int, flags: u32, es: Seq<EnumInfoView>) -> Outcome<
    (Seq<EnumInfoView>, Seq<RefactorInfoView>),
> {
    match spec_type_refactors(e, pos, flags) {
        Outcome::Value((rs, p1)) => match spec_type_variant(e, p1, flags) {
            Outcome::Value(p2) => if flags & 0x20000000 == 0x20000000 {
                match spec_extend_enums(e, p2, es) {
                    Outcome::Value((es2, _)) => Outcome::Value((es2, rs)),
                    Outcome::Error(err) => Outcome::Error(err),
                    Outcome::Panic => Outcome::Panic,
                }
            } else {
                Outcome::Value((es, rs))
            },
            Outcome::Error(err) => Outcome::Error(err),
            Outcome::Panic => Outcome::Panic,
        },
        Outcome::Error(err) => Outcome::Error(err),
        Outcome::Panic => Outcome::Panic,
    }
}

/// The GUID after the fields, read when the flags say so and it fits, and
/// the position after it and after the copy mask.
pub open spec fn spec_type_guid_mask(e: Seq<u8>, pos: int, flags: u32, size: u32) -> (Option<Seq<u8>>, int) {
    let has_guid = flags & 0x80 == 0x80 && pos + 16 <= e.len();
    let p = if has_guid { pos + 16 } else { pos };
    let q = if flags & 0x200 == 0x200 {
        if p + size < e.len() { p + size } else { e.len() as int }
    } else {
        p
    };
    (if has_guid { Some(e.subrange(pos, pos + 16)) } else { None }, q)
}

/// The data type that an entry of exactly `e.len()` bytes (at least 42) holds.
pub open spec fn spec_type_entry(e: Seq<u8>) -> Outcome<TypeInfoView> {
    let el = e.len() as int;
    let name_end = 43 + le_u16(e[32], e[33]);
    let type_end = name_end + le_u16(e[34], e[35]) + 1;
    let comment_end = type_end + le_u16(e[36], e[37]) + 1;
    let size = seq_u32(e, 16);
    let flags = seq_u32(e, 28);
    if el < comment_end {
        Outcome::Error(AdsTypeInfoError::EntryLengthMismatch { expected: comment_end as usize, got: el as usize })
    } else {
        match spec_array_list(e, comment_end, le_u16(e[38], e[39]) as nat) {
            Outcome::Value((arrays, p1)) => match spec_field_list(e, p1, le_u16(e[40], e[41]) as nat) {
                Outcome::Value((fields, p2)) => {
                    let gm = spec_type_guid_mask(e, p2, flags, size);
                    match spec_type_tail_a(e, gm.1, flags, size) {
                        Outcome::Value((ms, attrs, es, p3)) => match spec_type_tail_b(e, p3, flags, es) {
                            Outcome::Value((es2, rs)) => Outcome::Value(
                                TypeInfoView {
                                    version: seq_u32(e, 4),
                                    hash_value: seq_u32(e, 8),
                                    type_hash_value: seq_u32(e, 12),
                                    size,
                                    type_id: ads_type_id_of(seq_u32(e, 24)),
                                    flags,
                                    name: spec_text(e.subrange(42, name_end - 1)),
                                    data_type_name: spec_text(e.subrange(name_end, type_end - 1)),
                                    comment: spec_text(e.subrange(type_end, comment_end - 1)),
                                    array_infos: arrays,
                                    field_infos: fields,
                                    guid: gm.0,
                                    method_infos: ms,
                                    attributes: attrs,
                                    enum_infos: es2,
                                    refactor_infos: rs,
                                },
                            ),
                            Outcome::Error(err) => Outcome::Error(err),
                            Outcome::Panic => Outcome::Panic,
                        },
                        Outcome::Error(err) => Outcome::Error(err),
                        Outcome::Panic => Outcome::Panic,
                    }
                },
                Outcome::Error(err) => Outcome::Error(err),
                Outcome::Panic => Outcome::Panic,
            },
            Outcome::Error(err) => Outcome::Error(err),
            Outcome::Panic => Outcome::Panic,
        }
    }
}

/// The data type entry at the start of `d` and its length.
pub open spec fn spec_parse_type(d: Seq<u8>) -> Outcome<(TypeInfoView, int)> {
    if d.len() < 42 {
        Outcome::Error(AdsTypeInfoError::TooShort { expected: 42, got: d.len() as usize })
    } else {
        let el = seq_u32(d, 0) as int;
        if d.len() < el {
            Outcome::Error(AdsTypeInfoError::EntryLengthMismatch { expected: el as usize, got: d.len() as usize })
        } else if el < 42 {
            Outcome::Panic
        } else {
            match spec_type_entry(d.subrange(0, el)) {
                Outcome::Value(v) => Outcome::Value((v, el)),
                Outcome::Error(err) => Outcome::Error(err),
                Outcome::Panic => Outcome::Panic,
            }
        }
    }
}

/// Reads `count` array dimensions from `pos` on.
pub(crate) fn parse_array_list(entry: &[u8], pos: usize, count: usize) -> (r: Result<
    (Vec<AdsDataTypeArrayInfo>, usize),
    AdsTypeInfoError,
>)
    requires
        pos <= entry@.len(),
        !(spec_array_list(entry@, pos as int, count as nat) is Panic),
    ensures
        spec_array_list(entry@, pos as int, count as nat) matches Outcome::Value((s, p)) && r matches Ok((v, q))
            && array_views(v@) == s && q == p && q <= entry@.len(),
{
    let el = entry.len();
    let mut out: Vec<AdsDataTypeArrayInfo> = Vec::new();
    let mut p = pos;
    let mut i: usize = 0;
    assert(array_views(out@) =~= Seq::<(i32, u32)>::empty());
    proof {
        lemma_prepend_empty(spec_array_list(entry@, pos as int, count as nat));
    }
    while i < count
        invariant
            i <= count,
            p <= el,
            el == entry@.len(),
            !(spec_array_list(entry@, pos as int, count as nat) is Panic),
            spec_array_list(entry@, pos as int, count as nat) == prepend_items(
                array_views(out@),
                spec_array_list(entry@, p as int, (count - i) as nat),
            ),
        decreases count - i,
    {
        let ghost rest = spec_array_list(entry@, p + 8, (count - i - 1) as nat);
        assert(!(spec_array_list(entry@, p as int, (count - i) as nat) is Panic));
        let end = p + 8;
        let a = match AdsDataTypeArrayInfo::try_from_slice(&entry[p..end]) {
            Ok(a) => a,
            Err(e) => {
                return Err(e);
            },
        };
        proof {
            lemma_prepend_items(array_views(out@), seq![a.spec_fields()], rest);
        }
        let ghost before = array_views(out@);
        out.push(a);
        assert(array_views(out@) =~= before + seq![a.spec_fields()]);
        p = end;
        i = i + 1;
    }
    assert(array_views(out@) + Seq::<(i32, u32)>::empty() =~= array_views(out@));
    Ok((out, p))
}

/// Reads `count` field entries from `pos` on.
pub(crate) fn parse_field_list(entry: &[u8], pos: usize, count: usize) -> (r: Result<(Vec<AdsFieldInfo>, usize), AdsTypeInfoError>)
    requires
        pos <= entry@.len(),
        !(spec_field_list(entry@, pos as int, count as nat) is Panic),
    ensures
        match spec_field_list(entry@, pos as int, count as nat) {
            Outcome::Value((s, p)) => r matches Ok((v, q)) && field_views(v@) == s && q == p && q <= entry@.len(),
            Outcome::Error(err) => r == Err::<(Vec<AdsFieldInfo>, usize), AdsTypeInfoError>(err),
            Outcome::Panic => false,
        },
{
    let el = entry.len();
    let mut out: Vec<AdsFieldInfo> = Vec::new();
    let mut p = pos;
    let mut i: usize = 0;
    assert(field_views(out@) =~= Seq::<FieldInfoView>::empty());
    proof {
        lemma_prepend_empty(spec_field_list(entry@, pos as int, count as nat));
    }
    while i < count
        invariant
            i <= count,
            p <= el,
            el == entry@.len(),
            !(spec_field_list(entry@, pos as int, count as nat) is Panic),
            spec_field_list(entry@, pos as int, count as nat) == prepend_items(
                field_views(out@),
                spec_field_list(entry@, p as int, (count - i) as nat),
            ),
        decreases count - i,
    {
        assert(!(spec_field_list(entry@, p as int, (count - i) as nat) is Panic));
        let (f, n) = match AdsFieldInfo::try_from_slice(&entry[p..el]) {
            Ok(x) => x,
            Err(e) => {
                return Err(e);
            },
        };
        let ghost rest = spec_field_list(entry@, p + n, (count - i - 1) as nat);
        proof {
            lemma_prepend_items(field_views(out@), seq![f.spec_view()], rest);
        }
        let ghost before = field_views(out@);
        out.push(f);
        assert(field_views(out@) =~= before + seq![f.spec_view()]);
        p = p + n;
        i = i + 1;
    }
    assert(field_views(out@) + Seq::<FieldInfoView>::empty() =~= field_views(out@));
    Ok((out, p))
}

/// Reads up to `count` standard enum sections from `pos` on; with
/// `stop_at_end`, stops once the position reaches the end of the entry.
pub(crate) fn parse_enum_list(entry: &[u8], pos: usize, count: usize, value_size: usize, stop_at_end: bool) -> (r: Result<
    (Vec<AdsEnumInfo>, usize),
    AdsTypeInfoError,
>)
    requires
        pos <= entry@.len(),
        !(spec_enum_list(entry@, pos as int, count as nat, value_size as int, stop_at_end) is Panic),
    ensures
        match spec_enum_list(entry@, pos as int, count as nat, value_size as int, stop_at_end) {
            Outcome::Value((s, p)) => r matches Ok((v, q)) && enum_views(v@) == s && q == p,
            Outcome::Error(err) => r == Err::<(Vec<AdsEnumInfo>, usize), AdsTypeInfoError>(err),
            Outcome::Panic => false,
        },
{
    let el = entry.len();
    let mut out: Vec<AdsEnumInfo> = Vec::new();
    let mut p = pos;
    let mut i: usize = 0;
    assert(enum_views(out@) =~= Seq::<EnumInfoView>::empty());
    proof {
        lemma_prepend_empty(spec_enum_list(entry@, pos as int, count as nat, value_size as int, stop_at_end));
    }
    while i < count
        invariant
            i <= count,
            p <= el,
            el == entry@.len(),
            !(spec_enum_list(entry@, pos as int, count as nat, value_size as int, stop_at_end) is Panic),
            spec_enum_list(entry@, pos as int, count as nat, value_size as int, stop_at_end) == prepend_items(
                enum_views(out@),
                spec_enum_list(entry@, p as int, (count - i) as nat, value_size as int, stop_at_end),
            ),
        decreases count - i,
    {
        assert(!(spec_enum_list(entry@, p as int, (count - i) as nat, value_size as int, stop_at_end) is Panic));
        let (en, n) = match AdsEnumInfo::try_from_slice(&entry[p..el], value_size) {
            Ok(x) => x,
            Err(e) => {
                return Err(e);
            },
        };
        let ghost before = enum_views(out@);
        let ghost v = en.spec_view();
        out.push(en);
        assert(enum_views(out@) =~= before + seq![v]);
        p = p + n;
        i = i + 1;
        if stop_at_end && p >= el {
            return Ok((out, p));
        }
        proof {
            lemma_prepend_items(before, seq![v], spec_enum_list(entry@, p as int, (count - i) as nat, value_size as int, stop_at_end));
        }
    }
    assert(enum_views(out@) + Seq::<EnumInfoView>::empty() =~= enum_views(out@));
    Ok((out, p))
}

/// Reads the extended sections of the variants `enums` from `pos` on.
pub(crate) fn extend_enum_list(entry: &[u8], pos: usize, enums: Vec<AdsEnumInfo>) -> (r: Result<
    Vec<AdsEnumInfo>,
    AdsTypeInfoError,
>)
    requires
        !(spec_extend_enums(entry@, pos as int, enum_views(enums@)) is Panic),
    ensures
        match spec_extend_enums(entry@, pos as int, enum_views(enums@)) {
            Outcome::Value((s, _)) => r matches Ok(v) && enum_views(v@) == s,
            Outcome::Error(err) => r == Err::<Vec<AdsEnumInfo>, AdsTypeInfoError>(err),
            Outcome::Panic => false,
        },
{
    let el = entry.len();
    let ghost all = enum_views(enums@);
    let mut rest = enums;
    let mut out: Vec<AdsEnumInfo> = Vec::new();
    let mut p = pos;
    assert(enum_views(out@) =~= Seq::<EnumInfoView>::empty());
    proof {
        lemma_prepend_empty(spec_extend_enums(entry@, pos as int, all));
    }
    while rest.len() > 0
        invariant
            el == entry@.len(),
            all == enum_views(enums@),
            !(spec_extend_enums(entry@, pos as int, all) is Panic),
            spec_extend_enums(entry@, pos as int, all) == prepend_items(
                enum_views(out@),
                spec_extend_enums(entry@, p as int, enum_views(rest@)),
            ),
        decreases rest.len(),
    {
        let ghost rv = enum_views(rest@);
        let mut en = rest.remove(0);
        assert(enum_views(rest@) =~= rv.drop_first());
        assert(en.spec_view() == rv[0]);
        assert(!(spec_extend_enums(entry@, p as int, rv) is Panic));
        let ghost before = enum_views(out@);
        if p <= el && el - p >= 4 {
            let ghost x = spec_extend_enum(rv[0], entry@.subrange(p as int, el as int));
            let n = match en.extend_from_slice(&entry[p..el]) {
                Ok(n) => n,
                Err(e) => {
                    assert(x.1 == Outcome::<int>::Error(e));
                    assert(spec_extend_enums(entry@, p as int, rv) == Outcome::<(Seq<EnumInfoView>, int)>::Error(e));
                    return Err(e);
                },
            };
            proof {
                lemma_prepend_items(before, seq![en.spec_view()], spec_extend_enums(entry@, p + n, rv.drop_first()));
            }
            p = p + n;
        } else {
            proof {
                lemma_prepend_items(before, seq![en.spec_view()], spec_extend_enums(entry@, p as int, rv.drop_first()));
            }
        }
        let ghost v = en.spec_view();
        out.push(en);
        assert(enum_views(out@) =~= before + seq![v]);
    }
    assert(enum_views(out@) + Seq::<EnumInfoView>::empty() =~= enum_views(out@));
    Ok(out)
}

/// Reads `count` method entries from `pos` on, while at least four bytes
/// are left.
fn parse_type_method_list(entry: &[u8], pos: usize, count: usize) -> (r: Result<
    (Vec<AdsMethodInfo>, usize),
    AdsTypeInfoError,
>)
    requires
        pos <= entry@.len(),
        !(spec_type_method_list(entry@, pos as int, count as nat) is Panic),
    ensures
        match spec_type_method_list(entry@, pos as int, count as nat) {
            Outcome::Value((s, p)) => r matches Ok((v, q)) && method_views(v@) == s && q == p && q <= entry@.len(),
            Outcome::Error(err) => r == Err::<(Vec<AdsMethodInfo>, usize), AdsTypeInfoError>(err),
            Outcome::Panic => false,
        },
{
    let el = entry.len();
    let mut out: Vec<AdsMethodInfo> = Vec::new();
    let mut p = pos;
    let mut i: usize = 0;
    assert(method_views(out@) =~= Seq::<MethodInfoView>::empty());
    proof {
        lemma_prepend_empty(spec_type_method_list(entry@, pos as int, count as nat));
    }
    while i < count && el - p >= 4
        invariant
            i <= count,
            p <= el,
            el == entry@.len(),
            !(spec_type_method_list(entry@, pos as int, count as nat) is Panic),
            spec_type_method_list(entry@, pos as int, count as nat) == prepend_items(
                method_views(out@),
                spec_type_method_list(entry@, p as int, (count - i) as nat),
            ),
        decreases count - i,
    {
        assert(!(spec_type_method_list(entry@, p as int, (count - i) as nat) is Panic));
        let (m, n) = match AdsMethodInfo::try_from_slice(&entry[p..el]) {
            Ok(x) => x,
            Err(e) => {
                return Err(e);
            },
        };
        let ghost rest = spec_type_method_list(entry@, p + n, (count - i - 1) as nat);
        proof {
            lemma_prepend_items(method_views(out@), seq![m.spec_view()], rest);
        }
        let ghost before = method_views(out@);
        out.push(m);
        assert(method_views(out@) =~= before + seq![m.spec_view()]);
        p = p + n;
        i = i + 1;
    }
    assert(method_views(out@) + Seq::<MethodInfoView>::empty() =~= method_views(out@));
    Ok((out, p))
}

/// Reads the method, attribute and enum sections from `pos` on; returns the
/// methods, the attributes, the standard enum sections and the position after
/// them.
fn parse_tail_a(entry: &[u8], pos: usize, flags: AdsTypeFlags, size: u32) -> (r: Result<
    (Vec<AdsMethodInfo>, Vec<AdsAttribute>, Vec<AdsEnumInfo>, usize),
    AdsTypeInfoError,
>)
    requires
        pos <= entry@.len(),
        !(spec_type_tail_a(entry@, pos as int, flags.spec_bits(), size) is Panic),
    ensures
        match spec_type_tail_a(entry@, pos as int, flags.spec_bits(), size) {
            Outcome::Value((ms, a, es, p)) => r matches Ok((mv, av, ev, q)) && method_views(mv@) == ms
                && attr_views(av@) == a && enum_views(ev@) == es && q == p,
            Outcome::Error(err) => r == Err::<
                (Vec<AdsMethodInfo>, Vec<AdsAttribute>, Vec<AdsEnumInfo>, usize),
                AdsTypeInfoError,
            >(err),
            Outcome::Panic => false,
        },
{
    let el = entry.len();
    let ghost bits = flags.spec_bits();
    let ghost pos0 = pos as int;
    let mut pos = pos;
    let mut method_infos: Vec<AdsMethodInfo> = Vec::new();
    assert(method_views(method_infos@) =~= Seq::<MethodInfoView>::empty());
    if flags.has_method_infos() {
        let method_count = u16_from_le([entry[pos], entry[pos + 1]]) as usize;
        match parse_type_method_list(entry, pos + 2, method_count) {
            Ok((v, p)) => {
                method_infos = v;
                pos = p;
            },
            Err(e) => {
                return Err(e);
            },
        }
    }
    assert(spec_type_methods(entry@, pos0, bits) == Outcome::<(Seq<MethodInfoView>, int), AdsTypeInfoError>::Value((method_views(method_infos@), pos as int)));
    let ghost attrs = spec_type_attrs(entry@, pos as int, bits);
    let mut attributes: Vec<AdsAttribute> = Vec::new();
    assert(attr_views(attributes@) =~= Seq::<AttrView>::empty());
    if flags.has_attributes() && el - pos >= 2 {
        let attr_count = u16_from_le([entry[pos], entry[pos + 1]]) as usize;
        match parse_attr_list(entry, pos + 2, attr_count, true, false, &mut attributes) {
            Ok(p) => {
                pos = p;
            },
            Err(e) => {
                return Err(e);
            },
        }
    }
    assert(attrs.1 == Outcome::<int>::Value(pos as int));
    assert(attr_views(attributes@) == attrs.0);
    let ghost p2 = pos as int;
    let mut enums: Vec<AdsEnumInfo> = Vec::new();
    assert(enum_views(enums@) =~= Seq::<EnumInfoView>::empty());
    if flags.has_enum_infos() && pos <= el && el - pos >= 2 {
        assert(!(spec_type_enums(entry@, p2, bits, size) is Panic));
        let enum_count = u16_from_le([entry[pos], entry[pos + 1]]) as usize;
        match parse_enum_list(entry, pos + 2, enum_count, size as usize, true) {
            Ok((v, p)) => {
                enums = v;
                pos = p;
            },
            Err(e) => {
                return Err(e);
            },
        }
    }
    Ok((method_infos, attributes, enums, pos))
}

/// Reads the refactoring chain, the extended flags, the variant section and
/// the extended enum sections from `pos` on; returns the variants `enums`
/// extended and the chain.
pub(crate) fn parse_tail_b(entry: &[u8], pos: usize, bits: u32, enums: Vec<AdsEnumInfo>) -> (r: Result<
    (Vec<AdsEnumInfo>, Vec<AdsRefactorInfo>),
    AdsTypeInfoError,
>)
    requires
        !(spec_type_tail_b(entry@, pos as int, bits, enum_views(enums@)) is Panic),
    ensures
        match spec_type_tail_b(entry@, pos as int, bits, enum_views(enums@)) {
            Outcome::Value((es, rs)) => r matches Ok((ev, rv)) && enum_views(ev@) == es && refactor_views(rv@) == rs,
            Outcome::Error(err) => r == Err::<(Vec<AdsEnumInfo>, Vec<AdsRefactorInfo>), AdsTypeInfoError>(err),
            Outcome::Panic => false,
        },
{
    let el = entry.len();
    let flags = AdsTypeFlags::new(bits);
    let mut pos = pos;
    let mut refactor_infos: Vec<AdsRefactorInfo> = Vec::new();
    assert(refactor_views(refactor_infos@) =~= Seq::<RefactorInfoView>::empty());
    if flags.has_refactor_info() {
        match AdsRefactorInfo::parse_chain(&entry[pos..el]) {
            Ok((infos, consumed)) => {
                proof {
                    lemma_refactor_chain_end(entry@.subrange(pos as int, el as int), 0);
                }
                refactor_infos = infos;
                pos = pos + consumed;
            },
            Err(e) => {
                return Err(e);
            },
        }
    }
    if flags.has_extended_flags() {
        pos = pos + 4;
    }
    if flags.is_variant() && pos <= el && el - pos >= 2 {
        // the dereferenced types are skipped
        let deref_count = u16_from_le([entry[pos], entry[pos + 1]]) as usize;
        pos = pos + 2;
        let ghost start = pos;
        let mut i: usize = 0;
        while i < deref_count
            invariant
                i <= deref_count,
                pos <= el,
                el == entry@.len(),
                spec_skip_fixed16(entry@, start as int, deref_count as nat) == spec_skip_fixed16(
                    entry@,
                    pos as int,
                    (deref_count - i) as nat,
                ),
            decreases deref_count - i,
        {
            if el - pos >= 16 {
                pos = pos + 16;
            }
            i = i + 1;
        }
    }
    let mut enums = enums;
    if flags.has_extended_enum_infos() {
        enums = match extend_enum_list(entry, pos, enums) {
            Ok(v) => v,
            Err(e) => {
                return Err(e);
            },
        };
    }
    Ok((enums, refactor_infos))
}

/// A data type description of the type table.
#[derive(Debug, Clone, PartialEq, Eq)]
pub struct AdsTypeInfo {
    version: u32,
    hash_value: u32,
    type_hash_value: u32,
    size: u32,
    type_id: AdsTypeId,
    flags: AdsTypeFlags,
    name: String,
    data_type_name: String,
    comment: String,
    array_infos: Vec<AdsDataTypeArrayInfo>,
    field_infos: Vec<AdsFieldInfo>,
    guid: Option<Guid>,
    method_infos: Vec<AdsMethodInfo>,
    attributes: Vec<AdsAttribute>,
    enum_infos: Vec<AdsEnumInfo>,
    refactor_infos: Vec<AdsRefactorInfo>,
}

impl AdsTypeInfo {
    /// Size of the fixed header in bytes.
    pub const MIN_LENGTH: usize = 42;

    /// The description as plain values.
    pub closed spec fn spec_view(self) -> TypeInfoView {
        TypeInfoView {
            version: self.version,
            hash_value: self.hash_value,
            type_hash_value: self.type_hash_value,
            size: self.size,
            type_id: self.type_id,
            flags: self.flags.spec_bits(),
            name: self.name@,
            data_type_name: self.data_type_name@,
            comment: self.comment@,
            array_infos: array_views(self.array_infos@),
            field_infos: field_views(self.field_infos@),
            guid: match self.guid {
                Some(g) => Some(g.spec_bytes()),
                None => None,
            },
            method_infos: method_views(self.method_infos@),
            attributes: attr_views(self.attributes@),
            enum_infos: enum_views(self.enum_infos@),
            refactor_infos: refactor_views(self.refactor_infos@),
        }
    }

    /// The version of the description.
    pub fn version(&self) -> (r: u32)
        ensures
            r == self.spec_view().version,
    {
        self.version
    }

    /// The hash of the type, for change detection, or the getter code offset.
    pub fn hash_value(&self) -> (r: u32)
        ensures
            r == self.spec_view().hash_value,
    {
        self.hash_value
    }

    /// The hash of the base type, or the setter code offset.
    pub fn type_hash_value(&self) -> (r: u32)
        ensures
            r == self.spec_view().type_hash_value,
    {
        self.type_hash_value
    }

    /// The size of the type in bytes (in bits when the type holds bit values).
    pub fn size(&self) -> (r: u32)
        ensures
            r == self.spec_view().size,
    {
        self.size
    }

    /// The primitive type of the base or element type.
    pub fn type_id(&self) -> (r: AdsTypeId)
        ensures
            r == self.spec_view().type_id,
    {
        self.type_id
    }

    /// The type flags.
    pub fn flags(&self) -> (r: AdsTypeFlags)
        ensures
            r.spec_bits() == self.spec_view().flags,
    {
        self.flags
    }

    /// The name of the type.
    pub fn name(&self) -> (r: &str)
        ensures
            r@ == self.spec_view().name,
    {
        self.name.as_str()
    }

    /// The name of the base or element type; empty for primitive root types.
    pub fn data_type_name(&self) -> (r: &str)
        ensures
            r@ == self.spec_view().data_type_name,
    {
        self.data_type_name.as_str()
    }

    /// The comment of the type.
    pub fn comment(&self) -> (r: &str)
        ensures
            r@ == self.spec_view().comment,
    {
        self.comment.as_str()
    }

    /// The array dimensions; empty but for array types.
    pub fn array_infos(&self) -> (r: &[AdsDataTypeArrayInfo])
        ensures
            array_views(r@) == self.spec_view().array_infos,
    {
        self.array_infos.as_slice()
    }

    /// The fields; empty but for structured types.
    pub fn field_infos(&self) -> (r: &[AdsFieldInfo])
        ensures
            field_views(r@) == self.spec_view().field_infos,
    {
        self.field_infos.as_slice()
    }

    /// The GUID of the type, when the entry carries one.
    pub fn guid(&self) -> (r: Option<&Guid>)
        ensures
            match self.spec_view().guid {
                Some(b) => r matches Some(g) && g.spec_bytes() == b,
                None => r is None,
            },
    {
        match &self.guid {
            Some(g) => Some(g),
            None => None,
        }
    }

    /// The methods of the type.
    pub fn method_infos(&self) -> (r: &[AdsMethodInfo])
        ensures
            method_views(r@) == self.spec_view().method_infos,
    {
        self.method_infos.as_slice()
    }

    /// The attributes of the type.
    pub fn attributes(&self) -> (r: &[AdsAttribute])
        ensures
            attr_views(r@) == self.spec_view().attributes,
    {
        self.attributes.as_slice()
    }

    /// The variants of an enum type.
    pub fn enum_infos(&self) -> (r: &[AdsEnumInfo])
        ensures
            enum_views(r@) == self.spec_view().enum_infos,
    {
        self.enum_infos.as_slice()
    }

    /// The refactoring history of the type.
    pub fn refactor_infos(&self) -> (r: &[AdsRefactorInfo])
        ensures
            refactor_views(r@) == self.spec_view().refactor_infos,
    {
        self.refactor_infos.as_slice()
    }

    /// Parses a data type entry at the start of a slice; returns it and the
    /// entry length.
    pub fn try_from_slice(data: &[u8]) -> (r: Result<(AdsTypeInfo, usize), AdsTypeInfoError>)
        requires
            !(spec_parse_type(data@) is Panic),
        ensures
            match spec_parse_type(data@) {
                Outcome::Value((v, n)) => r matches Ok((t, m)) && t.spec_view() == v && m == n,
                Outcome::Error(err) => r == Err::<(AdsTypeInfo, usize), AdsTypeInfoError>(err),
                Outcome::Panic => false,
            },
    {
        let len = data.len();
        if len < Self::MIN_LENGTH {
            return Err(AdsTypeInfoError::TooShort { expected: Self::MIN_LENGTH, got: len });
        }
        let entry_length = u32_from_le([data[0], data[1], data[2], data[3]]) as usize;
        if len < entry_length {
            return Err(AdsTypeInfoError::EntryLengthMismatch { expected: entry_length, got: len });
        }
        match Self::parse_entry(&data[0..entry_length]) {
            Ok(t) => Ok((t, entry_length)),
            Err(e) => Err(e),
        }
    }

    /// Parses a data type entry of exactly the slice's length.
    #[verifier::rlimit(40)]
    fn parse_entry(entry: &[u8]) -> (r: Result<AdsTypeInfo, AdsTypeInfoError>)
        requires
            entry@.len() >= 42,
            !(spec_type_entry(entry@) is Panic),
        ensures
            match spec_type_entry(entry@) {
                Outcome::Value(v) => r matches Ok(t) && t.spec_view() == v,
                Outcome::Error(err) => r == Err::<AdsTypeInfo, AdsTypeInfoError>(err),
                Outcome::Panic => false,
            },
    {
        let el = entry.len();
        let version = u32_from_le([entry[4], entry[5], entry[6], entry[7]]);
        let hash_value = u32_from_le([entry[8], entry[9], entry[10], entry[11]]);
        let type_hash_value = u32_from_le([entry[12], entry[13], entry[14], entry[15]]);
        let size = u32_from_le([entry[16], entry[17], entry[18], entry[19]]);
        // the offset at bytes 20..24 is always zero for a root type
        let type_id = AdsTypeId::from_bytes([entry[24], entry[25], entry[26], entry[27]]);
        let flags = AdsTypeFlags::from_bytes([entry[28], entry[29], entry[30], entry[31]]);
        let name_length = u16_from_le([entry[32], entry[33]]) as usize;
        let type_name_length = u16_from_le([entry[34], entry[35]]) as usize;
        let comment_length = u16_from_le([entry[36], entry[37]]) as usize;
        let array_dim_count = u16_from_le([entry[38], entry[39]]) as usize;
        let field_count = u16_from_le([entry[40], entry[41]]) as usize;
        let name_end = Self::MIN_LENGTH + name_length + 1;
        let type_end = name_end + type_name_length + 1;
        let comment_end = type_end + comment_length + 1;
        if el < comment_end {
            return Err(AdsTypeInfoError::EntryLengthMismatch { expected: comment_end, got: el });
        }
        let name = decode_windows_1252(&entry[Self::MIN_LENGTH..name_end - 1]);
        let data_type_name = decode_windows_1252(&entry[name_end..type_end - 1]);
        let comment = decode_windows_1252(&entry[type_end..comment_end - 1]);
        let (array_infos, pos) = match parse_array_list(entry, comment_end, array_dim_count) {
            Ok(x) => x,
            Err(e) => {
                return Err(e);
            },
        };
        let (field_infos, pos) = match parse_field_list(entry, pos, field_count) {
            Ok(x) => x,
            Err(e) => {
                return Err(e);
            },
        };
        let mut pos = pos;
        let mut guid: Option<Guid> = None;
        if flags.has_type_guid() && el - pos >= 16 {
            guid = match Guid::try_from_slice(&entry[pos..pos + 16]) {
                Ok(g) => Some(g),
                Err(e) => {
                    return Err(AdsTypeInfoError::InvalidGuid(e));
                },
            };
            pos = pos + 16;
        }
        if flags.has_copy_mask() {
            // the legacy copy mask section is skipped
            pos = if el - pos > size as usize { pos + size as usize } else { el };
        }
        let (method_infos, attributes, enums, pos) = match parse_tail_a(entry, pos, flags, size) {
            Ok(x) => x,
            Err(e) => {
                return Err(e);
            },
        };
        let (enum_infos, refactor_infos) = match parse_tail_b(entry, pos, flags.bits(), enums) {
            Ok(x) => x,
            Err(e) => {
                return Err(e);
            },
        };
        Ok(AdsTypeInfo {
            version,
            hash_value,
            type_hash_value,
            size,
            type_id,
            flags,
            name,
            data_type_name,
            comment,
            array_infos,
            field_infos,
            guid,
            method_infos,
            attributes,
            enum_infos,
            refactor_infos,
        })
    }
}

/// One step over a table of data type entries from `cursor` on: the entry
/// read there (none at the end of the table) and the cursor after it. A
/// table too short for the length field or for the entry's length ends the
/// iteration with an error, and so does an entry that declares a length of
/// zero (after the error of parsing it).
pub open spec fn spec_next_type(d: Seq<u8>, cursor: int) -> (Option<Outcome<TypeInfoView>>, int) {
    if cursor >= d.len() {
        (None, cursor)
    } else if cursor + 4 > d.len() {
        (Some(Outcome::Error(AdsTypeInfoError::TooShort { expected: (cursor + 4) as usize, got: d.len() as usize })), d.len() as int)
    } else {
        let el = seq_u32(d, cursor) as int;
        if cursor + el > d.len() {
            (
                Some(
                    Outcome::Error(
                        AdsTypeInfoError::EntryLengthMismatch { expected: el as usize, got: (d.len() - cursor) as usize },
                    ),
                ),
                d.len() as int,
            )
        } else {
            (
                Some(
                    match spec_parse_type(d.subrange(cursor, cursor + el)) {
                        Outcome::Value((v, _)) => Outcome::Value(v),
                        Outcome::Error(err) => Outcome::Error(err),
                        Outcome::Panic => Outcome::Panic,
                    },
                ),
                if el == 0 { d.len() as int } else { cursor + el },
            )
        }
    }
}

/// The step result as the executable value it stands for.
pub open spec fn next_type_matches(r: Option<Result<AdsTypeInfo, AdsTypeInfoError>>, s: Option<Outcome<TypeInfoView>>) -> bool {
    match s {
        None => r is None,
        Some(Outcome::Value(v)) => r matches Some(Ok(t)) && t.spec_view() == v,
        Some(Outcome::Error(err)) => r == Some(Err::<AdsTypeInfo, AdsTypeInfoError>(err)),
        Some(Outcome::Panic) => false,
    }
}

/// Reads the data type entry of a table at `cursor` and moves the cursor to
/// the next entry. When the table is too short for the length field or for
/// the entry, or when the entry declares a length of zero, the cursor moves to
/// the end, so that the iteration stops; an entry that fails to parse still
/// moves the cursor past it.
pub fn parse_next_entry(data: &[u8], cursor: &mut usize) -> (r: Option<Result<AdsTypeInfo, AdsTypeInfoError>>)
    requires
        data@.len() <= isize::MAX,
        !(spec_next_type(data@, *old(cursor) as int).0 matches Some(Outcome::Panic)),
    ensures
        *final(cursor) == spec_next_type(data@, *old(cursor) as int).1,
        next_type_matches(r, spec_next_type(data@, *old(cursor) as int).0),
{
    let len = data.len();
    let c = *cursor;
    if c >= len {
        return None;
    }
    if len - c < 4 {
        let err = AdsTypeInfoError::TooShort { expected: c + 4, got: len };
        *cursor = len;
        return Some(Err(err));
    }
    let entry_length = u32_from_le([data[c], data[c + 1], data[c + 2], data[c + 3]]) as usize;
    if entry_length > len - c {
        let err = AdsTypeInfoError::EntryLengthMismatch { expected: entry_length, got: len - c };
        *cursor = len;
        return Some(Err(err));
    }
    let end = c + entry_length;
    *cursor = if entry_length == 0 { len } else { end };
    match AdsTypeInfo::try_from_slice(&data[c..end]) {
        Ok((info, _)) => Some(Ok(info)),
        Err(e) => Some(Err(e)),
    }
}

/// Iterates over a table of data type entries held in a borrowed slice.
/// An entry that fails to parse is yielded as an error and skipped by its
/// length field.
pub struct AdsTypeInfoIterator<'a> {
    data: &'a [u8],
    cursor: usize,
}

impl<'a> AdsTypeInfoIterator<'a> {
    /// The table.
    pub closed spec fn spec_data(self) -> Seq<u8> {
        self.data@
    }

    /// The position of the next entry.
    pub closed spec fn spec_cursor(self) -> int {
        self.cursor as int
    }

    /// Creates an iterator over a table, at its first entry.
    pub fn new(data: &'a [u8]) -> (r: AdsTypeInfoIterator<'a>)
        ensures
            r.spec_data() == data@,
            r.spec_cursor() == 0,
    {
        AdsTypeInfoIterator { data, cursor: 0 }
    }

    /// An iterator over a copy of the table, at the same position.
    pub fn into_owned(self) -> (r: AdsTypeInfoIteratorOwned)
        ensures
            r.spec_data() == self.spec_data(),
            r.spec_cursor() == self.spec_cursor(),
    {
        AdsTypeInfoIteratorOwned { buffer: vstd::slice::slice_to_vec(self.data), cursor: self.cursor }
    }

    /// An iterator over a copy of the table, at the same position.
    pub fn to_owned(&self) -> (r: AdsTypeInfoIteratorOwned)
        ensures
            r.spec_data() == self.spec_data(),
            r.spec_cursor() == self.spec_cursor(),
    {
        AdsTypeInfoIteratorOwned { buffer: vstd::slice::slice_to_vec(self.data), cursor: self.cursor }
    }

    /// The next entry, or `None` at the end of the table.
    pub fn next(&mut self) -> (r: Option<Result<AdsTypeInfo, AdsTypeInfoError>>)
        requires
            old(self).spec_data().len() <= isize::MAX,
            !(spec_next_type(old(self).spec_data(), old(self).spec_cursor()).0 matches Some(Outcome::Panic)),
        ensures
            final(self).spec_data() == old(self).spec_data(),
            final(self).spec_cursor() == spec_next_type(old(self).spec_data(), old(self).spec_cursor()).1,
            next_type_matches(r, spec_next_type(old(self).spec_data(), old(self).spec_cursor()).0),
    {
        parse_next_entry(self.data, &mut self.cursor)
    }
}

/// Iterates over a table of data type entries held in an owned buffer.
pub struct AdsTypeInfoIteratorOwned {
    buffer: Vec<u8>,
    cursor: usize,
}

impl AdsTypeInfoIteratorOwned {
    /// The table.
    pub closed spec fn spec_data(self) -> Seq<u8> {
        self.buffer@
    }

    /// The position of the next entry.
    pub closed spec fn spec_cursor(self) -> int {
        self.cursor as int
    }

    /// Creates an iterator over a table, at its first entry.
    pub fn new(buffer: Vec<u8>) -> (r: AdsTypeInfoIteratorOwned)
        ensures
            r.spec_data() == buffer@,
            r.spec_cursor() == 0,
    {
        AdsTypeInfoIteratorOwned { buffer, cursor: 0 }
    }

    /// A borrowed iterator over the same table at the same position; moving
    /// it does not move this one.
    pub fn as_view(&self) -> (r: AdsTypeInfoIterator<'_>)
        ensures
            r.spec_data() == self.spec_data(),
            r.spec_cursor() == self.spec_cursor(),
    {
        AdsTypeInfoIterator { data: self.buffer.as_slice(), cursor: self.cursor }
    }

    /// The next entry, or `None` at the end of the table.
    pub fn next(&mut self) -> (r: Option<Result<AdsTypeInfo, AdsTypeInfoError>>)
        requires
            old(self).spec_data().len() <= isize::MAX,
            !(spec_next_type(old(self).spec_data(), old(self).spec_cursor()).0 matches Some(Outcome::Panic)),
        ensures
            final(self).spec_data() == old(self).spec_data(),
            final(self).spec_cursor() == spec_next_type(old(self).spec_data(), old(self).spec_cursor()).1,
            next_type_matches(r, spec_next_type(old(self).spec_data(), old(self).spec_cursor()).0),
    {
        parse_next_entry(self.buffer.as_slice(), &mut self.cursor)
    }
}

/// Each step of the type table iteration keeps the cursor within the table and
/// never moves it back: it yields nothing exactly when the cursor is at or
/// past the end, and otherwise moves the cursor forward, so that the
/// iteration ends. An entry of nonzero length that fits in the table is
/// stepped over by its declared length, whether it parses or not, so that
/// the next step starts at the next entry.
pub proof fn lemma_next_type_progress(d: Seq<u8>, cursor: int)
    requires
        0 <= cursor,
    ensures
        ({
            let step = spec_next_type(d, cursor);
            &&& (step.0 is None) == (cursor >= d.len())
            &&& step.0 is None ==> step.1 == cursor
            &&& step.0 is Some ==> cursor <= step.1 <= d.len()
            &&& step.0 is Some ==> step.1 > cursor
            &&& cursor + 4 <= d.len() && 0 < seq_u32(d, cursor) && cursor + seq_u32(d, cursor) <= d.len() ==> step.1 == cursor + seq_u32(d, cursor)
        }),
{
}

} // verus!
