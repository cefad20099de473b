//! Classification of data types into high-level categories.

use vstd::prelude::*;
use crate::symbol::attributes::AdsAttribute;
use crate::symbol::parse::{attr_views, AttrView};
use crate::symbol::type_id::AdsTypeId;
use crate::symbol::type_info::{AdsTypeInfo, TypeInfoView};
use crate::text::{seq_contains, seq_starts_with, text_contains, text_contains_char, text_eq, text_starts_with};

verus! {

/// The category of a data type: how its memory is laid out.
#[derive(Debug, Clone, Copy, PartialEq, Eq, Structural, Hash, Default)]
pub enum AdsTypeCategory {
    /// Unknown or not initialised.
    #[default]
    Unknown,
    /// A simple base type (`BOOL`, `INT`, `REAL`, ...).
    Primitive,
    /// Another name for a base type.
    Alias,
    /// An enumeration.
    Enum,
    /// An array.
    Array,
    /// A structure.
    Struct,
    /// A function block instance.
    FunctionBlock,
    /// A program instance.
    Program,
    /// A function instance.
    Function,
    /// A sub-range type.
    SubRange,
    /// A string type (`STRING`, `WSTRING`).
    String,
    /// A bitset.
    Bitset,
    /// A pointer (`POINTER TO ...`, `PVOID`).
    Pointer,
    /// A union: fields that overlap in memory.
    Union,
    /// A reference (`REFERENCE TO ...`).
    Reference,
    /// An interface pointer.
    Interface,
}

/// The type names classified as primitive whatever their type identifier.
pub open spec fn is_primitive_name(s: Seq<char>) -> bool {
    ||| s == "TOD"@
    ||| s == "DT"@
    ||| s == "TIME"@
    ||| s == "DATE"@
    ||| s == "LTIME"@
    ||| s == "TIME_OF_DAY"@
    ||| s == "DATE_AND_TIME"@
    ||| s == "UXINT"@
    ||| s == "XINT"@
    ||| s == "XWORD"@
    ||| s == "__UXINT"@
    ||| s == "__XINT"@
    ||| s == "__XWORD"@
}

/// True when a type name is classified as primitive whatever its type identifier.
pub fn primitive_name(s: &str) -> (r: bool)
    ensures
        r == is_primitive_name(s@),
{
    text_eq(s, "TOD") || text_eq(s, "DT") || text_eq(s, "TIME") || text_eq(s, "DATE") || text_eq(s, "LTIME")
        || text_eq(s, "TIME_OF_DAY") || text_eq(s, "DATE_AND_TIME") || text_eq(s, "UXINT") || text_eq(s, "XINT")
        || text_eq(s, "XWORD") || text_eq(s, "__UXINT") || text_eq(s, "__XINT") || text_eq(s, "__XWORD")
}

/// The identifiers of numeric and bit base types.
pub open spec fn is_primitive_id(t: AdsTypeId) -> bool {
    match t {
        AdsTypeId::Int8 | AdsTypeId::UInt8 | AdsTypeId::Int16 | AdsTypeId::UInt16 | AdsTypeId::Int32
        | AdsTypeId::UInt32 | AdsTypeId::Int64 | AdsTypeId::UInt64 | AdsTypeId::Real32 | AdsTypeId::Real64
        | AdsTypeId::Real80 | AdsTypeId::Bit => true,
        _ => false,
    }
}

/// The identifiers of string base types.
pub open spec fn is_string_id(t: AdsTypeId) -> bool {
    t == AdsTypeId::String || t == AdsTypeId::WString
}

/// The name of a pointer type.
pub open spec fn is_pointer_name(s: Seq<char>) -> bool {
    s == "PVOID"@ || s == "PCCH"@ || seq_starts_with(s, "POINTER TO"@)
}

/// The name of a sub-range type, such as `INT (1..10)`.
pub open spec fn is_sub_range_name(s: Seq<char>) -> bool {
    seq_contains(s, ".."@) && s.contains('(') && s.contains(')')
}

/// One of the attributes is named `TcImplements`.
pub open spec fn has_implements_attribute(attrs: Seq<AttrView>) -> bool {
    exists|i: int| 0 <= i < attrs.len() && attrs[i].0 == "TcImplements"@
}

/// The category of a type without fields, methods or any of the earlier marks.
pub open spec fn spec_leaf_category(name: Seq<char>, size: u32, attrs: Seq<AttrView>) -> AdsTypeCategory {
    if name.len() > 0 && size == 0 {
        AdsTypeCategory::Struct
    } else if has_implements_attribute(attrs) {
        AdsTypeCategory::FunctionBlock
    } else if size % 4 == 0 && size > 8 {
        AdsTypeCategory::FunctionBlock
    } else if size == 4 || size == 8 {
        AdsTypeCategory::Interface
    } else {
        AdsTypeCategory::Unknown
    }
}

/// The category of a type with methods: a function block when it implements
/// an interface, an interface when it has no fields or is as large as a
/// pointer of the platform, else a function block.
pub open spec fn spec_method_category(
    has_fields: bool,
    size: u32,
    attrs: Seq<AttrView>,
    platform_ptr_size: Option<u8>,
) -> AdsTypeCategory {
    if has_implements_attribute(attrs) {
        AdsTypeCategory::FunctionBlock
    } else if !has_fields {
        AdsTypeCategory::Interface
    } else if platform_ptr_size matches Some(p) && size == p {
        AdsTypeCategory::Interface
    } else {
        AdsTypeCategory::FunctionBlock
    }
}

/// The category that a data type description falls in, with the pointer size
/// of the platform where it is known.
pub open spec fn spec_type_category(v: TypeInfoView, platform_ptr_size: Option<u8>) -> AdsTypeCategory {
    let fields = v.field_infos;
    if v.flags & 0x800000 == 0x800000 || is_pointer_name(v.name) {
        AdsTypeCategory::Pointer
    } else if v.flags & 0x4 == 0x4 || seq_starts_with(v.name, "REFERENCE TO"@) {
        AdsTypeCategory::Reference
    } else if v.array_infos.len() > 0 {
        AdsTypeCategory::Array
    } else if v.flags & 0x2000 == 0x2000 {
        AdsTypeCategory::Enum
    } else if is_sub_range_name(v.name) {
        AdsTypeCategory::SubRange
    } else if v.data_type_name.len() > 0 && fields.len() == 0 && v.method_infos.len() == 0 {
        if v.name == "BOOL"@ {
            AdsTypeCategory::Primitive
        } else {
            AdsTypeCategory::Alias
        }
    } else if is_primitive_id(v.type_id) {
        AdsTypeCategory::Primitive
    } else if is_string_id(v.type_id) {
        AdsTypeCategory::String
    } else if is_primitive_name(v.name) {
        AdsTypeCategory::Primitive
    } else if fields.len() > 1 && v.data_type_name.len() == 0 && v.method_infos.len() == 0 && fields[0].offset
        == fields[1].offset {
        AdsTypeCategory::Union
    } else if v.method_infos.len() > 0 {
        spec_method_category(fields.len() > 0, v.size, v.attributes, platform_ptr_size)
    } else if fields.len() > 0 {
        if fields[0].offset > 0 {
            AdsTypeCategory::FunctionBlock
        } else {
            AdsTypeCategory::Struct
        }
    } else {
        spec_leaf_category(v.name, v.size, v.attributes)
    }
}

/// True when one of the attributes is named `TcImplements`.
pub fn implements_attribute(attrs: &[AdsAttribute]) -> (r: bool)
    ensures
        r == has_implements_attribute(attr_views(attrs@)),
{
    let mut i: usize = 0;
    while i < attrs.len()
        invariant
            i <= attrs@.len(),
            forall|k: int| 0 <= k < i ==> attrs@[k].spec_view().0 != "TcImplements"@,
        decreases attrs@.len() - i,
    {
        if text_eq(attrs[i].name(), "TcImplements") {
            assert(attr_views(attrs@)[i as int] == attrs@[i as int].spec_view());
            return true;
        }
        i = i + 1;
    }
    assert forall|k: int| 0 <= k < attrs@.len() implies attr_views(attrs@)[k].0 != "TcImplements"@ by {
        assert(attr_views(attrs@)[k] == attrs@[k].spec_view());
    }
    false
}

/// The category of a type with no fields, methods or earlier marks.
pub fn leaf_category(name: &str, size: u32, attrs: &[AdsAttribute]) -> (r: AdsTypeCategory)
    ensures
        r == spec_leaf_category(name@, size, attr_views(attrs@)),
{
    if !name.is_empty() && size == 0 {
        return AdsTypeCategory::Struct;
    }
    if implements_attribute(attrs) {
        return AdsTypeCategory::FunctionBlock;
    }
    if size % 4 == 0 && size > 8 {
        return AdsTypeCategory::FunctionBlock;
    }
    if size == 4 || size == 8 {
        return AdsTypeCategory::Interface;
    }
    AdsTypeCategory::Unknown
}

/// The category of a type with methods.
pub fn method_category(has_fields: bool, size: u32, attrs: &[AdsAttribute], platform_ptr_size: Option<u8>) -> (r:
    AdsTypeCategory)
    ensures
        r == spec_method_category(has_fields, size, attr_views(attrs@), platform_ptr_size),
{
    if implements_attribute(attrs) {
        return AdsTypeCategory::FunctionBlock;
    }
    if !has_fields {
        return AdsTypeCategory::Interface;
    }
    match platform_ptr_size {
        Some(p) => {
            if size == p as u32 {
                return AdsTypeCategory::Interface;
            }
        },
        None => {},
    }
    AdsTypeCategory::FunctionBlock
}

impl AdsTypeCategory {
    /// The category of a data type description; the pointer size of the
    /// platform, where known, tells interfaces from function blocks.
    pub fn determine(info: &AdsTypeInfo, platform_ptr_size: Option<u8>) -> (r: AdsTypeCategory)
        ensures
            r == spec_type_category(info.spec_view(), platform_ptr_size),
    {
        let name = info.name();
        if info.flags().is_plc_pointer_type() || text_eq(name, "PVOID") || text_eq(name, "PCCH") || text_starts_with(
            name,
            "POINTER TO",
        ) {
            return AdsTypeCategory::Pointer;
        }
        if info.flags().is_reference_to() || text_starts_with(name, "REFERENCE TO") {
            return AdsTypeCategory::Reference;
        }
        if !info.array_infos().is_empty() {
            return AdsTypeCategory::Array;
        }
        if info.flags().has_enum_infos() {
            return AdsTypeCategory::Enum;
        }
        if text_contains(name, "..") && text_contains_char(name, '(') && text_contains_char(name, ')') {
            return AdsTypeCategory::SubRange;
        }
        let fields = info.field_infos();
        let methods = info.method_infos();
        if !info.data_type_name().is_empty() && fields.is_empty() && methods.is_empty() {
            if text_eq(name, "BOOL") {
                return AdsTypeCategory::Primitive;
            }
            return AdsTypeCategory::Alias;
        }
        match info.type_id() {
            AdsTypeId::Int8 | AdsTypeId::UInt8 | AdsTypeId::Int16 | AdsTypeId::UInt16 | AdsTypeId::Int32
            | AdsTypeId::UInt32 | AdsTypeId::Int64 | AdsTypeId::UInt64 | AdsTypeId::Real32 | AdsTypeId::Real64
            | AdsTypeId::Real80 | AdsTypeId::Bit => {
                return AdsTypeCategory::Primitive;
            },
            AdsTypeId::String | AdsTypeId::WString => {
                return AdsTypeCategory::String;
            },
            _ => {
                if primitive_name(name) {
                    return AdsTypeCategory::Primitive;
                }
            },
        }
        if !fields.is_empty() && info.data_type_name().is_empty() && methods.is_empty() {
            if fields.len() > 1 && fields[0].offset() == fields[1].offset() {
                return AdsTypeCategory::Union;
            }
        }
        if !methods.is_empty() {
            return method_category(!fields.is_empty(), info.size(), info.attributes(), platform_ptr_size);
        }
        if !fields.is_empty() {
            if fields[0].offset() > 0 {
                return AdsTypeCategory::FunctionBlock;
            }
            return AdsTypeCategory::Struct;
        }
        leaf_category(name, info.size(), info.attributes())
    }
}

/// The numeric and bit base types of the ADS protocol: the signed and
/// unsigned integers of 8 to 64 bits (`ADST_INT8` ... `ADST_UINT64`), the
/// floating-point types (`ADST_REAL32`, `ADST_REAL64`, `ADST_REAL80`) and
/// `ADST_BIT`.
pub open spec fn numeric_base_types() -> Seq<AdsTypeId> {
    seq![
        AdsTypeId::Int8,
        AdsTypeId::UInt8,
        AdsTypeId::Int16,
        AdsTypeId::UInt16,
        AdsTypeId::Int32,
        AdsTypeId::UInt32,
        AdsTypeId::Int64,
        AdsTypeId::UInt64,
        AdsTypeId::Real32,
        AdsTypeId::Real64,
        AdsTypeId::Real80,
        AdsTypeId::Bit,
    ]
}

/// The base types that the classification treats as primitive are exactly
/// the numeric and bit base types of the protocol.
pub proof fn lemma_primitive_ids_are_numeric_base_types(t: AdsTypeId)
    ensures
        is_primitive_id(t) <==> numeric_base_types().contains(t),
{
    let l = numeric_base_types();
    if is_primitive_id(t) {
        match t {
            AdsTypeId::Int8 => assert(l[0] == t),
            AdsTypeId::UInt8 => assert(l[1] == t),
            AdsTypeId::Int16 => assert(l[2] == t),
            AdsTypeId::UInt16 => assert(l[3] == t),
            AdsTypeId::Int32 => assert(l[4] == t),
            AdsTypeId::UInt32 => assert(l[5] == t),
            AdsTypeId::Int64 => assert(l[6] == t),
            AdsTypeId::UInt64 => assert(l[7] == t),
            AdsTypeId::Real32 => assert(l[8] == t),
            AdsTypeId::Real64 => assert(l[9] == t),
            AdsTypeId::Real80 => assert(l[10] == t),
            _ => assert(l[11] == t),
        }
    }
    if l.contains(t) {
        let i = choose|i: int| 0 <= i < l.len() && l[i] == t;
        assert(is_primitive_id(l[i]));
    }
}

/// None of the rules before the base-type rule applies to `v`: it is not a
/// pointer, a reference, an array, an enum, a sub-range or an alias.
pub open spec fn reaches_base_type_rule(v: TypeInfoView) -> bool {
    &&& v.flags & 0x800000 != 0x800000
    &&& !is_pointer_name(v.name)
    &&& v.flags & 0x4 != 0x4
    &&& !seq_starts_with(v.name, "REFERENCE TO"@)
    &&& v.array_infos.len() == 0
    &&& v.flags & 0x2000 != 0x2000
    &&& !is_sub_range_name(v.name)
    &&& !(v.data_type_name.len() > 0 && v.field_infos.len() == 0 && v.method_infos.len() == 0)
}

/// A type that none of the earlier rules catches and whose base type is a
/// numeric or bit type of the protocol is primitive, whatever its size,
/// fields, methods or name: an `LREAL` (base type `Real64`, 8 bytes) is
/// primitive, not an interface.
pub proof fn lemma_numeric_base_type_is_primitive(v: TypeInfoView, platform_ptr_size: Option<u8>)
    requires
        reaches_base_type_rule(v),
        numeric_base_types().contains(v.type_id),
    ensures
        spec_type_category(v, platform_ptr_size) == AdsTypeCategory::Primitive,
{
    lemma_primitive_ids_are_numeric_base_types(v.type_id);
}

/// A type that none of the earlier rules catches and whose base type is a
/// string type is a string.
pub proof fn lemma_string_base_type_is_string(v: TypeInfoView, platform_ptr_size: Option<u8>)
    requires
        reaches_base_type_rule(v),
        v.type_id == AdsTypeId::String || v.type_id == AdsTypeId::WString,
    ensures
        spec_type_category(v, platform_ptr_size) == AdsTypeCategory::String,
{
}

/// The type names that are primitive whatever their base type: the time and
/// date types and the platform-sized integers.
pub open spec fn primitive_type_names() -> Seq<Seq<char>> {
    seq![
        "TOD"@,
        "DT"@,
        "TIME"@,
        "DATE"@,
        "LTIME"@,
        "TIME_OF_DAY"@,
        "DATE_AND_TIME"@,
        "UXINT"@,
        "XINT"@,
        "XWORD"@,
        "__UXINT"@,
        "__XINT"@,
        "__XWORD"@,
    ]
}

/// The names that the classification treats as primitive are exactly the
/// primitive type names.
pub proof fn lemma_primitive_names_are_listed(s: Seq<char>)
    ensures
        is_primitive_name(s) <==> primitive_type_names().contains(s),
{
    let l = primitive_type_names();
    if is_primitive_name(s) {
        if s == "TOD"@ {
            assert(l[0] == s);
        } else if s == "DT"@ {
            assert(l[1] == s);
        } else if s == "TIME"@ {
            assert(l[2] == s);
        } else if s == "DATE"@ {
            assert(l[3] == s);
        } else if s == "LTIME"@ {
            assert(l[4] == s);
        } else if s == "TIME_OF_DAY"@ {
            assert(l[5] == s);
        } else if s == "DATE_AND_TIME"@ {
            assert(l[6] == s);
        } else if s == "UXINT"@ {
            assert(l[7] == s);
        } else if s == "XINT"@ {
            assert(l[8] == s);
        } else if s == "XWORD"@ {
            assert(l[9] == s);
        } else if s == "__UXINT"@ {
            assert(l[10] == s);
        } else if s == "__XINT"@ {
            assert(l[11] == s);
        } else {
            assert(l[12] == s);
        }
    }
    if l.contains(s) {
        let i = choose|i: int| 0 <= i < l.len() && l[i] == s;
        assert(is_primitive_name(l[i]));
    }
}

/// A type flagged as a PLC pointer, or named `PVOID`, `PCCH` or
/// `POINTER TO ...`, is a pointer, whatever else it carries.
pub proof fn lemma_pointer_marks_give_pointer(v: TypeInfoView, platform_ptr_size: Option<u8>)
    requires
        v.flags & 0x800000 == 0x800000 || v.name == "PVOID"@ || v.name == "PCCH"@ || seq_starts_with(
            v.name,
            "POINTER TO"@,
        ),
    ensures
        spec_type_category(v, platform_ptr_size) == AdsTypeCategory::Pointer,
{
}

/// A type that is no pointer and is flagged as a reference, or named
/// `REFERENCE TO ...`, is a reference.
pub proof fn lemma_reference_marks_give_reference(v: TypeInfoView, platform_ptr_size: Option<u8>)
    requires
        v.flags & 0x800000 != 0x800000,
        !is_pointer_name(v.name),
        v.flags & 0x4 == 0x4 || seq_starts_with(v.name, "REFERENCE TO"@),
    ensures
        spec_type_category(v, platform_ptr_size) == AdsTypeCategory::Reference,
{
}

} // verus!
