//! Methods of function blocks, with their parameters and return types.

use vstd::prelude::*;
use vstd::utf8::{encode_utf8, is_ascii_chars};
use crate::bytes::{
    extend_bytes, le_u16, lemma_subrange_left, lemma_subrange_right, lemma_u16_roundtrip, lemma_u32_roundtrip, saturating_usize,
    seq_u32, u16_bytes, u16_from_le, u16_to_le, u32_bytes, u32_from_le, u32_to_le,
};
use crate::codepage::{decode_windows_1252, lemma_ascii_utf8_cp1252};
use crate::error::AdsTypeInfoError;
use crate::symbol::attributes::{text_len, AdsAttribute};
use crate::symbol::guid::Guid;
use crate::symbol::method_info::flags::AdsMethodFlags;
use crate::symbol::method_info::param_info::{
    lemma_attrs_size_nonneg, lemma_param_bytes_len, lemma_param_prefix, lemma_param_view_guid, lemma_param_writable_guid, param_writable, spec_param_bytes, spec_param_size,
    spec_parse_param, AdsMethodParamInfo, ParamInfoView,
};
use crate::symbol::method_info::return_type::{lemma_return_type_guid, AdsMethodReturnTypeInfo, ReturnTypeView};
use crate::symbol::parse::{
    attr_views, attr_writable, attrs_wire_size, lemma_attr_block_reads_back, lemma_attrs_size_bytes, parse_attr_list,
    spec_attr_list, spec_attrs_bytes, spec_attrs_size, spec_text, write_attrs, AttrView, Outcome,
};
use crate::symbol::type_id::{ads_type_id_canonical, ads_type_id_code, ads_type_id_of, lemma_ads_type_id_roundtrip, AdsTypeId};

verus! {

/// A method as plain values.
pub struct MethodInfoView {
    pub version: u32,
    pub vtable_index: u32,
    pub flags: u32,
    pub name: Seq<char>,
    pub comment: Seq<char>,
    pub return_type: Option<ReturnTypeView>,
    pub parameters: Seq<ParamInfoView>,
    pub attributes: Seq<AttrView>,
}

/// The plain values of a list of parameters.
pub open spec fn param_views(v: Seq<AdsMethodParamInfo>) -> Seq<ParamInfoView> {
    v.map_values(|p: AdsMethodParamInfo| p.spec_view())
}

/// Parsing `count` parameter entries of `e` from `pos` on: the parameters
/// read and the outcome, the position after them or the error.
pub open spec fn spec_param_list(e: Seq<u8>, pos: int, count: nat) -> (Seq<ParamInfoView>, Outcome<int>)
    decreases count,
{
    if count == 0 {
        (Seq::empty(), Outcome::Value(pos))
    } else if pos > e.len() {
        (Seq::empty(), Outcome::Panic)
    } else {
        match spec_parse_param(e.subrange(pos, e.len() as int)) {
            Outcome::Value((p, n)) => {
                let rest = spec_param_list(e, pos + n, (count - 1) as nat);
                (seq![p] + rest.0, rest.1)
            },
            Outcome::Error(err) => (Seq::empty(), Outcome::Error(err)),
            Outcome::Panic => (Seq::empty(), Outcome::Panic),
        }
    }
}

/// The method that an entry of exactly `e.len()` bytes (at least 56) holds.
pub open spec fn spec_method_entry(e: Seq<u8>) -> Outcome<MethodInfoView> {
    let el = e.len() as int;
    let name_end = 57 + le_u16(e[48], e[49]);
    let ret_end = name_end + le_u16(e[50], e[51]) + 1;
    let comment_end = ret_end + le_u16(e[52], e[53]) + 1;
    if comment_end - 1 > el {
        Outcome::Panic
    } else {
        let flags = seq_u32(e, 44);
        let ret_name = spec_text(e.subrange(name_end, ret_end - 1));
        let return_type = if seq_u32(e, 12) == 0 && ret_name.len() == 0 {
            None
        } else {
            Some((seq_u32(e, 12), seq_u32(e, 16), ads_type_id_of(seq_u32(e, 40)), e.subrange(24, 40), ret_name))
        };
        let params = spec_param_list(e, comment_end, le_u16(e[54], e[55]) as nat);
        match params.1 {
            Outcome::Value(pos) => if flags & 0x8 == 0x8 && pos + 2 > usize::MAX {
                Outcome::Panic
            } else {
                let attrs = if flags & 0x8 == 0x8 && pos + 2 <= el {
                    spec_attr_list(e, pos + 2, le_u16(e[pos], e[pos + 1]) as nat, false, false)
                } else {
                    (Seq::empty(), Outcome::Value(pos))
                };
                let v = MethodInfoView {
                    version: seq_u32(e, 4),
                    vtable_index: seq_u32(e, 8),
                    flags,
                    name: spec_text(e.subrange(56, name_end - 1)),
                    comment: spec_text(e.subrange(ret_end, comment_end - 1)),
                    return_type,
                    parameters: params.0,
                    attributes: attrs.0,
                };
                match attrs.1 {
                    Outcome::Value(_) => Outcome::Value(v),
                    Outcome::Error(err) => Outcome::Error(err),
                    Outcome::Panic => Outcome::Panic,
                }
            },
            Outcome::Error(err) => Outcome::Error(err),
            Outcome::Panic => Outcome::Panic,
        }
    }
}

/// The method entry at the start of `d` and its length.
pub open spec fn spec_parse_method(d: Seq<u8>) -> Outcome<(MethodInfoView, int)> {
    if d.len() < 56 {
        Outcome::Error(AdsTypeInfoError::TooShort { expected: 56, got: d.len() as usize })
    } else {
        let el = seq_u32(d, 0) as int;
        if d.len() < el {
            Outcome::Error(AdsTypeInfoError::EntryLengthMismatch { expected: el as usize, got: d.len() as usize })
        } else if el < 56 {
            Outcome::Panic
        } else {
            match spec_method_entry(d.subrange(0, el)) {
                Outcome::Value(v) => Outcome::Value((v, el)),
                Outcome::Error(err) => Outcome::Error(err),
                Outcome::Panic => Outcome::Panic,
            }
        }
    }
}

/// A parameter list never ends beyond its data.
pub proof fn lemma_param_list_end(e: Seq<u8>, pos: int, count: nat)
    requires
        0 <= pos,
    ensures
        spec_param_list(e, pos, count).1 matches Outcome::Value(end) ==> pos <= end && (end <= e.len() || end == pos),
    decreases count,
{
    reveal(spec_parse_param);
    if count > 0 {
        if let Outcome::Value((p, n)) = spec_parse_param(e.subrange(pos, e.len() as int)) {
            lemma_param_list_end(e, pos + n, (count - 1) as nat);
        }
    }
}

/// The sum of the sizes of parameter entries.
pub open spec fn spec_params_size(s: Seq<ParamInfoView>) -> int
    decreases s.len(),
{
    if s.len() == 0 {
        0
    } else {
        spec_params_size(s.drop_last()) + spec_param_size(s.last())
    }
}

/// The wire bytes of parameter entries, one after the other.
pub open spec fn spec_params_bytes(s: Seq<ParamInfoView>) -> Seq<u8>
    decreases s.len(),
{
    if s.len() == 0 {
        Seq::empty()
    } else {
        spec_params_bytes(s.drop_last()) + spec_param_bytes(s.last())
    }
}

/// The name of the return type, empty when there is none.
pub open spec fn spec_return_name(v: MethodInfoView) -> Seq<char> {
    match v.return_type {
        Some(r) => r.4,
        None => Seq::empty(),
    }
}

/// The size of a method entry: header, three UTF-8 strings with NULs, the
/// parameters, and the attribute block when there are attributes.
pub open spec fn spec_method_size(v: MethodInfoView) -> int {
    56 + text_len(v.name) + 1 + text_len(spec_return_name(v)) + 1 + text_len(v.comment) + 1 + spec_params_size(
        v.parameters,
    ) + if v.attributes.len() == 0 {
        0
    } else {
        2 + spec_attrs_size(v.attributes)
    }
}

/// The return-type fields of the header: size, alignment, GUID bytes and
/// type, zero for a method without return type.
pub open spec fn spec_return_fields(v: MethodInfoView) -> (u32, u32, Seq<u8>, AdsTypeId) {
    match v.return_type {
        Some(r) => (r.0, r.1, r.3, r.2),
        None => (0, 0, Seq::new(16, |i: int| 0u8), AdsTypeId::Void),
    }
}

/// The 56-byte header of a method entry whose length is `el`.
pub open spec fn spec_method_head(v: MethodInfoView, el: u32) -> Seq<u8> {
    let r = spec_return_fields(v);
    u32_bytes(el) + u32_bytes(v.version) + u32_bytes(v.vtable_index) + u32_bytes(r.0) + u32_bytes(r.1) + u32_bytes(0)
        + r.2 + u32_bytes(ads_type_id_code(r.3)) + u32_bytes(v.flags) + u16_bytes((text_len(v.name) % 65536) as u16)
        + u16_bytes((text_len(spec_return_name(v)) % 65536) as u16) + u16_bytes((text_len(v.comment) % 65536) as u16)
        + u16_bytes((v.parameters.len() % 65536) as u16)
}

/// The strings of a method entry (name, return type name, comment), each
/// followed by a NUL.
pub open spec fn spec_method_strings(v: MethodInfoView) -> Seq<u8> {
    encode_utf8(v.name) + seq![0u8] + encode_utf8(spec_return_name(v)) + seq![0u8] + encode_utf8(v.comment) + seq![0u8]
}

/// The attribute block of a method entry: empty without attributes, else
/// the count and the attributes.
pub open spec fn spec_method_tail(v: MethodInfoView) -> Seq<u8> {
    if v.attributes.len() == 0 {
        Seq::<u8>::empty()
    } else {
        u16_bytes((v.attributes.len() % 65536) as u16) + spec_attrs_bytes(v.attributes)
    }
}

/// The wire bytes of a method entry: header, strings (written as UTF-8),
/// parameter entries and attribute block.
#[verifier::opaque]
pub open spec fn spec_method_bytes(v: MethodInfoView) -> Seq<u8> {
    spec_method_head(v, saturating_usize(spec_method_size(v)) as u32) + spec_method_strings(v) + spec_params_bytes(
        v.parameters,
    ) + spec_method_tail(v)
}

/// Parses `count` parameter entries of `e` from `pos` on and appends them to `out`.
fn parse_param_list(e: &[u8], pos: usize, count: usize, out: &mut Vec<AdsMethodParamInfo>) -> (r: Result<
    usize,
    AdsTypeInfoError,
>)
    requires
        !(spec_param_list(e@, pos as int, count as nat).1 is Panic),
    ensures
        ({
            let s = spec_param_list(e@, pos as int, count as nat);
            &&& param_views(final(out)@) == param_views(old(out)@) + s.0
            &&& match s.1 {
                Outcome::Value(end) => r == Ok::<usize, AdsTypeInfoError>(end as usize),
                Outcome::Error(err) => r == Err::<usize, AdsTypeInfoError>(err),
                Outcome::Panic => false,
            }
        }),
    decreases count,
{
    if count == 0 {
        assert(param_views(out@) =~= param_views(out@) + Seq::<ParamInfoView>::empty());
        return Ok(pos);
    }
    let n = e.len();
    let (param, consumed) = match AdsMethodParamInfo::try_from_slice(&e[pos..n]) {
        Ok(x) => x,
        Err(err) => {
            assert(param_views(out@) =~= param_views(out@) + Seq::<ParamInfoView>::empty());
            return Err(err);
        },
    };
    proof {
        reveal(spec_parse_param);
    }
    let next = pos + consumed;
    let ghost p = param.spec_view();
    let ghost before = param_views(out@);
    out.push(param);
    assert(param_views(out@) =~= before.push(p));
    let r = parse_param_list(e, next, count - 1, out);
    proof {
        let rest = spec_param_list(e@, next as int, (count - 1) as nat);
        assert(before.push(p) + rest.0 =~= before + (seq![p] + rest.0));
    }
    r
}

/// A method of a function block or interface.
#[derive(Debug, Clone, PartialEq, Eq)]
pub struct AdsMethodInfo {
    version: u32,
    vtable_index: u32,
    flags: AdsMethodFlags,
    name: String,
    comment: String,
    return_type: Option<AdsMethodReturnTypeInfo>,
    parameters: Vec<AdsMethodParamInfo>,
    attributes: Vec<AdsAttribute>,
}

impl AdsMethodInfo {
    /// Size of the fixed header in bytes.
    pub const MIN_LENGTH: usize = 56;

    /// The method as plain values.
    pub closed spec fn spec_view(self) -> MethodInfoView {
        MethodInfoView {
            version: self.version,
            vtable_index: self.vtable_index,
            flags: self.flags.spec_bits(),
            name: self.name@,
            comment: self.comment@,
            return_type: match self.return_type {
                Some(r) => Some(r.spec_view()),
                None => None,
            },
            parameters: param_views(self.parameters@),
            attributes: attr_views(self.attributes@),
        }
    }

    /// Creates a method (version 1) without comment, return type, parameters
    /// or attributes.
    pub fn new(vtable_index: u32, flags: AdsMethodFlags, name: &str) -> (r: AdsMethodInfo)
        ensures
            r.spec_view() == (MethodInfoView {
                version: 1,
                vtable_index,
                flags: flags.spec_bits(),
                name: name@,
                comment: Seq::empty(),
                return_type: None,
                parameters: Seq::empty(),
                attributes: Seq::empty(),
            }),
    {
        let r = AdsMethodInfo {
            version: 1,
            vtable_index,
            flags,
            name: name.to_owned(),
            comment: String::new(),
            return_type: None,
            parameters: Vec::new(),
            attributes: Vec::new(),
        };
        assert(param_views(r.parameters@) =~= Seq::<ParamInfoView>::empty());
        assert(attr_views(r.attributes@) =~= Seq::<AttrView>::empty());
        r
    }

    /// The method with the comment replaced.
    pub fn with_comment(self, comment: &str) -> (r: AdsMethodInfo)
        ensures
            r.spec_view() == (MethodInfoView { comment: comment@, ..self.spec_view() }),
    {
        AdsMethodInfo { comment: comment.to_owned(), ..self }
    }

    /// The method with the return type replaced.
    pub fn with_return_type(self, return_type: AdsMethodReturnTypeInfo) -> (r: AdsMethodInfo)
        ensures
            r.spec_view() == (MethodInfoView { return_type: Some(return_type.spec_view()), ..self.spec_view() }),
    {
        AdsMethodInfo { return_type: Some(return_type), ..self }
    }

    /// The method with the parameters replaced.
    pub fn with_parameters(self, parameters: Vec<AdsMethodParamInfo>) -> (r: AdsMethodInfo)
        ensures
            r.spec_view() == (MethodInfoView { parameters: param_views(parameters@), ..self.spec_view() }),
    {
        AdsMethodInfo { parameters, ..self }
    }

    /// The method with the attributes replaced; when there are any, the
    /// `ATTRIBUTES` flag is set too.
    pub fn with_attributes(self, attributes: Vec<AdsAttribute>) -> (r: AdsMethodInfo)
        ensures
            r.spec_view() == (MethodInfoView {
                attributes: attr_views(attributes@),
                flags: if attributes@.len() > 0 {
                    self.spec_view().flags | 0x8
                } else {
                    self.spec_view().flags
                },
                ..self.spec_view()
            }),
    {
        let flags = if attributes.len() > 0 {
            self.flags.union(AdsMethodFlags::new(AdsMethodFlags::ATTRIBUTES))
        } else {
            self.flags
        };
        AdsMethodInfo { attributes, flags, ..self }
    }

    /// The version of the method description.
    pub fn version(&self) -> (r: u32)
        ensures
            r == self.spec_view().version,
    {
        self.version
    }

    /// The virtual table index of the method.
    pub fn vtable_index(&self) -> (r: u32)
        ensures
            r == self.spec_view().vtable_index,
    {
        self.vtable_index
    }

    /// The method flags.
    pub fn flags(&self) -> (r: AdsMethodFlags)
        ensures
            r.spec_bits() == self.spec_view().flags,
    {
        self.flags
    }

    /// The name of the method.
    pub fn name(&self) -> (r: &str)
        ensures
            r@ == self.spec_view().name,
    {
        self.name.as_str()
    }

    /// The comment of the method.
    pub fn comment(&self) -> (r: &str)
        ensures
            r@ == self.spec_view().comment,
    {
        self.comment.as_str()
    }

    /// The return type, for a method that returns a value.
    pub fn return_type(&self) -> (r: Option<&AdsMethodReturnTypeInfo>)
        ensures
            match self.spec_view().return_type {
                Some(v) => r matches Some(t) && t.spec_view() == v,
                None => r is None,
            },
    {
        match &self.return_type {
            Some(t) => Some(t),
            None => None,
        }
    }

    /// The parameters of the method.
    pub fn parameters(&self) -> (r: &[AdsMethodParamInfo])
        ensures
            param_views(r@) == self.spec_view().parameters,
    {
        self.parameters.as_slice()
    }

    /// The attributes of the method.
    pub fn attributes(&self) -> (r: &[AdsAttribute])
        ensures
            attr_views(r@) == self.spec_view().attributes,
    {
        self.attributes.as_slice()
    }

    /// The total of the entry sizes of the parameters (saturating).
    fn params_wire_size(&self) -> (r: usize)
        ensures
            r == saturating_usize(spec_params_size(self.spec_view().parameters)),
    {
        let mut total: usize = 0;
        let mut i: usize = 0;
        while i < self.parameters.len()
            invariant
                0 <= i <= self.parameters@.len(),
                total == saturating_usize(spec_params_size(param_views(self.parameters@.subrange(0, i as int)))),
                spec_params_size(param_views(self.parameters@.subrange(0, i as int))) >= 0,
            decreases self.parameters@.len() - i,
        {
            let ws = self.parameters[i].wire_size();
            proof {
                let s = param_views(self.parameters@.subrange(0, i + 1));
                assert(s.drop_last() =~= param_views(self.parameters@.subrange(0, i as int)));
                assert(s.last() == self.parameters@[i as int].spec_view());
                lemma_attrs_size_nonneg(s.last().attributes);
            }
            total = total.saturating_add(ws);
            i = i + 1;
        }
        assert(self.parameters@.subrange(0, self.parameters@.len() as int) =~= self.parameters@);
        total
    }

    /// The size of the entry in bytes (saturating at `usize::MAX`).
    pub fn wire_size(&self) -> (r: usize)
        ensures
            r == saturating_usize(spec_method_size(self.spec_view())),
    {
        let ret_len = match &self.return_type {
            Some(t) => t.name().as_bytes().len(),
            None => 0,
        };
        let n = self.name.as_str().as_bytes().len();
        let c = self.comment.as_str().as_bytes().len();
        let strings = n.saturating_add(ret_len).saturating_add(c).saturating_add(3);
        let params = self.params_wire_size();
        let attrs = if self.attributes.len() == 0 {
            0
        } else {
            attrs_wire_size(&self.attributes).saturating_add(2)
        };
        proof {
            lemma_attrs_size_nonneg(self.spec_view().attributes);
            lemma_params_size_nonneg(self.spec_view().parameters);
        }
        strings.saturating_add(params).saturating_add(attrs).saturating_add(56)
    }

    /// The wire bytes of the entry; the strings are written as UTF-8.
    #[verifier::rlimit(30)]
    pub fn to_vec(&self) -> (r: Vec<u8>)
        ensures
            r@ == spec_method_bytes(self.spec_view()),
    {
        let entry_length = self.wire_size() as u32;
        let zero_guid = Guid::new([0u8; 16]);
        assert(zero_guid.spec_bytes() =~= Seq::new(16, |i: int| 0u8));
        let (return_size, return_align_size, return_guid, return_type_id, return_name): (u32, u32, &Guid, AdsTypeId, &str) =
            match &self.return_type {
            Some(t) => (t.size(), t.align_size(), t.guid(), t.type_id(), t.name()),
            None => (0, 0, &zero_guid, AdsTypeId::Void, ""),
        };
        proof {
            reveal_strlit("");
        }
        let mut buf: Vec<u8> = Vec::new();
        extend_bytes(&mut buf, u32_to_le(entry_length).as_slice());
        extend_bytes(&mut buf, u32_to_le(self.version).as_slice());
        extend_bytes(&mut buf, u32_to_le(self.vtable_index).as_slice());
        extend_bytes(&mut buf, u32_to_le(return_size).as_slice());
        extend_bytes(&mut buf, u32_to_le(return_align_size).as_slice());
        extend_bytes(&mut buf, u32_to_le(0).as_slice());
        extend_bytes(&mut buf, return_guid.as_bytes().as_slice());
        extend_bytes(&mut buf, return_type_id.to_bytes().as_slice());
        extend_bytes(&mut buf, self.flags.to_bytes().as_slice());
        extend_bytes(&mut buf, u16_to_le((self.name.as_str().as_bytes().len() % 65536) as u16).as_slice());
        extend_bytes(&mut buf, u16_to_le((return_name.as_bytes().len() % 65536) as u16).as_slice());
        extend_bytes(&mut buf, u16_to_le((self.comment.as_str().as_bytes().len() % 65536) as u16).as_slice());
        extend_bytes(&mut buf, u16_to_le((self.parameters.len() % 65536) as u16).as_slice());
        let ghost v = self.spec_view();
        assert(buf@ =~= spec_method_head(v, entry_length));
        extend_bytes(&mut buf, self.name.as_str().as_bytes());
        buf.push(0);
        extend_bytes(&mut buf, return_name.as_bytes());
        buf.push(0);
        extend_bytes(&mut buf, self.comment.as_str().as_bytes());
        buf.push(0);
        assert(buf@ =~= spec_method_head(v, entry_length) + spec_method_strings(v));
        let ghost head = buf@;
        let mut i: usize = 0;
        while i < self.parameters.len()
            invariant
                0 <= i <= self.parameters@.len(),
                buf@ == head + spec_params_bytes(param_views(self.parameters@.subrange(0, i as int))),
            decreases self.parameters@.len() - i,
        {
            let b = self.parameters[i].to_bytes();
            extend_bytes(&mut buf, b.as_slice());
            proof {
                let s = param_views(self.parameters@.subrange(0, i + 1));
                assert(s.drop_last() =~= param_views(self.parameters@.subrange(0, i as int)));
                assert(s.last() == self.parameters@[i as int].spec_view());
            }
            i = i + 1;
        }
        assert(self.parameters@.subrange(0, self.parameters@.len() as int) =~= self.parameters@);
        if self.attributes.len() > 0 {
            extend_bytes(&mut buf, u16_to_le((self.attributes.len() % 65536) as u16).as_slice());
            write_attrs(&self.attributes, &mut buf);
        }
        proof {
            reveal(spec_method_bytes);
        }
        assert(buf@ =~= spec_method_bytes(self.spec_view()));
        buf
    }

    /// Parses a method entry at the start of a slice; returns it and the
    /// entry length.
    pub fn try_from_slice(data: &[u8]) -> (r: Result<(AdsMethodInfo, usize), AdsTypeInfoError>)
        requires
            !(spec_parse_method(data@) is Panic),
        ensures
            match spec_parse_method(data@) {
                Outcome::Value((v, n)) => r matches Ok((m, k)) && m.spec_view() == v && k == n,
                Outcome::Error(err) => r == Err::<(AdsMethodInfo, usize), AdsTypeInfoError>(err),
                Outcome::Panic => false,
            },
    {
        let len = data.len();
        if len < Self::MIN_LENGTH {
            return Err(AdsTypeInfoError::TooShort { expected: Self::MIN_LENGTH, got: len });
        }
        let entry_length = u32_from_le([data[0], data[1], data[2], data[3]]) as usize;
        if len < entry_length {
            return Err(AdsTypeInfoError::EntryLengthMismatch { expected: entry_length, got: len });
        }
        match Self::parse_entry(&data[0..entry_length]) {
            Ok(m) => Ok((m, entry_length)),
            Err(e) => Err(e),
        }
    }

    /// Parses a method entry of exactly the slice's length.
    #[verifier::rlimit(30)]
    fn parse_entry(entry: &[u8]) -> (r: Result<AdsMethodInfo, AdsTypeInfoError>)
        requires
            entry@.len() >= 56,
            !(spec_method_entry(entry@) is Panic),
        ensures
            match spec_method_entry(entry@) {
                Outcome::Value(v) => r matches Ok(m) && m.spec_view() == v,
                Outcome::Error(err) => r == Err::<AdsMethodInfo, AdsTypeInfoError>(err),
                Outcome::Panic => false,
            },
    {
        let entry_length = entry.len();
        let version = u32_from_le([entry[4], entry[5], entry[6], entry[7]]);
        let vtable_index = u32_from_le([entry[8], entry[9], entry[10], entry[11]]);
        let return_size = u32_from_le([entry[12], entry[13], entry[14], entry[15]]);
        let return_align_size = u32_from_le([entry[16], entry[17], entry[18], entry[19]]);
        let return_type_guid = match Guid::try_from_slice(&entry[24..40]) {
            Ok(g) => g,
            Err(e) => {
                return Err(AdsTypeInfoError::InvalidGuid(e));
            },
        };
        let return_data_type = match AdsTypeId::try_from_slice(&entry[40..44]) {
            Ok(t) => t,
            Err(e) => {
                return Err(e);
            },
        };
        let flags = match AdsMethodFlags::try_from_slice(&entry[44..48]) {
            Ok(f) => f,
            Err(e) => {
                return Err(e);
            },
        };
        let name_len = u16_from_le([entry[48], entry[49]]) as usize;
        let return_type_len = u16_from_le([entry[50], entry[51]]) as usize;
        let comment_len = u16_from_le([entry[52], entry[53]]) as usize;
        let param_count = u16_from_le([entry[54], entry[55]]) as usize;
        let name_end = Self::MIN_LENGTH + name_len + 1;
        let ret_end = name_end + return_type_len + 1;
        let comment_end = ret_end + comment_len + 1;
        let name = decode_windows_1252(&entry[Self::MIN_LENGTH..name_end - 1]);
        let return_type_str = decode_windows_1252(&entry[name_end..ret_end - 1]);
        let comment = decode_windows_1252(&entry[ret_end..comment_end - 1]);
        let return_type = if return_size == 0 && return_type_str.as_str().is_empty() {
            None
        } else {
            Some(
                AdsMethodReturnTypeInfo::from_parts(
                    return_size,
                    return_align_size,
                    return_data_type,
                    return_type_guid,
                    return_type_str,
                ),
            )
        };
        let mut parameters: Vec<AdsMethodParamInfo> = Vec::new();
        assert(param_views(parameters@) =~= Seq::<ParamInfoView>::empty());
        proof {
            lemma_param_list_end(entry@, comment_end as int, param_count as nat);
        }
        let pos = match parse_param_list(entry, comment_end, param_count, &mut parameters) {
            Ok(p) => p,
            Err(e) => {
                return Err(e);
            },
        };
        let mut attributes: Vec<AdsAttribute> = Vec::new();
        assert(attr_views(attributes@) =~= Seq::<AttrView>::empty());
        if flags.has_attributes() && pos + 2 <= entry_length {
            let attr_count = u16_from_le([entry[pos], entry[pos + 1]]) as usize;
            match parse_attr_list(entry, pos + 2, attr_count, false, false, &mut attributes) {
                Ok(_) => {},
                Err(e) => {
                    return Err(e);
                },
            }
        }
        Ok(AdsMethodInfo { version, vtable_index, flags, name, comment, return_type, parameters, attributes })
    }
}

/// The sizes in a parameter list are never negative.
pub proof fn lemma_params_size_nonneg(s: Seq<ParamInfoView>)
    ensures
        spec_params_size(s) >= 0,
    decreases s.len(),
{
    if s.len() > 0 {
        lemma_params_size_nonneg(s.drop_last());
        lemma_attrs_size_nonneg(s.last().attributes);
    }
}

/// The bytes of a list of parameters are those of its first parameter
/// followed by those of the rest.
pub proof fn lemma_params_bytes_cons(p: ParamInfoView, rest: Seq<ParamInfoView>)
    ensures
        spec_params_bytes(seq![p] + rest) == spec_param_bytes(p) + spec_params_bytes(rest),
    decreases rest.len(),
{
    let s = seq![p] + rest;
    if rest.len() == 0 {
        assert(s.drop_last() =~= Seq::<ParamInfoView>::empty());
        assert(spec_params_bytes(s.drop_last()) =~= Seq::<u8>::empty());
        assert(s.last() == p);
        assert(spec_params_bytes(rest) =~= Seq::<u8>::empty());
        assert(spec_params_bytes(s) =~= spec_param_bytes(p) + spec_params_bytes(rest));
    } else {
        assert(s.drop_last() =~= seq![p] + rest.drop_last());
        assert(s.last() == rest.last());
        lemma_params_bytes_cons(p, rest.drop_last());
        assert(spec_params_bytes(s) =~= spec_param_bytes(p) + spec_params_bytes(rest));
    }
}

/// The bytes of a list of parameters are as long as the sum of their sizes.
pub proof fn lemma_params_size_bytes(s: Seq<ParamInfoView>)
    requires
        forall|i: int| 0 <= i < s.len() ==> (#[trigger] s[i]).guid.len() == 16,
    ensures
        spec_params_size(s) == spec_params_bytes(s).len(),
    decreases s.len(),
{
    if s.len() > 0 {
        assert forall|i: int| 0 <= i < s.drop_last().len() implies (#[trigger] s.drop_last()[i]).guid.len() == 16 by {
            assert(s.drop_last()[i] == s[i]);
        }
        lemma_params_size_bytes(s.drop_last());
        assert(s.last() == s[s.len() - 1]);
        lemma_param_bytes_len(s.last());
    }
}

/// The parameters of a writable method have 16-byte GUIDs.
proof fn lemma_method_writable_guids(v: MethodInfoView)
    requires
        method_writable(v),
    ensures
        forall|i: int| 0 <= i < v.parameters.len() ==> (#[trigger] v.parameters[i]).guid.len() == 16,
{
    assert forall|i: int| 0 <= i < v.parameters.len() implies (#[trigger] v.parameters[i]).guid.len() == 16 by {
        lemma_param_writable_guid(v.parameters[i]);
    }
}

/// A method entry's bytes are as long as its size, when its GUIDs (the
/// return type's and the parameters') have 16 bytes, as those of a method
/// value always do.
pub proof fn lemma_method_bytes_len(v: MethodInfoView)
    requires
        spec_return_fields(v).2.len() == 16,
        forall|i: int| 0 <= i < v.parameters.len() ==> (#[trigger] v.parameters[i]).guid.len() == 16,
    ensures
        spec_method_bytes(v).len() == spec_method_size(v),
{
    reveal(spec_method_bytes);
    lemma_attrs_size_bytes(v.attributes);
    lemma_params_size_bytes(v.parameters);
    lemma_params_size_nonneg(v.parameters);
    lemma_attrs_size_nonneg(v.attributes);
    let el = spec_method_size(v);
    assert(spec_method_head(v, saturating_usize(el) as u32).len() == 56);
}

/// A list of parameters written at `pos` reads back as the same list, and
/// the position after it is the end of the written bytes.
pub proof fn lemma_param_list_reads_back(e: Seq<u8>, pos: int, ps: Seq<ParamInfoView>)
    requires
        0 <= pos,
        pos + spec_params_bytes(ps).len() <= e.len(),
        e.subrange(pos, pos + spec_params_bytes(ps).len()) == spec_params_bytes(ps),
        forall|i: int| 0 <= i < ps.len() ==> param_writable(#[trigger] ps[i]),
    ensures
        spec_param_list(e, pos, ps.len()) == (ps, Outcome::<int>::Value(pos + spec_params_bytes(ps).len())),
    decreases ps.len(),
{
    if ps.len() == 0 {
        assert(ps =~= Seq::<ParamInfoView>::empty());
    } else {
        let p = ps[0];
        let rest = ps.drop_first();
        assert(ps =~= seq![p] + rest);
        lemma_params_bytes_cons(p, rest);
        assert(param_writable(p));
        let pb = spec_param_bytes(p);
        let rb = spec_params_bytes(rest);
        let n = pb.len() as int;
        let t = e.subrange(pos, e.len() as int);
        assert(t.subrange(0, n) =~= pb) by {
            assert(e.subrange(pos, pos + n) =~= spec_params_bytes(ps).subrange(0, n));
        }
        lemma_param_prefix(t, p);
        assert(e.subrange(pos + n, pos + n + rb.len()) =~= rb) by {
            assert(e.subrange(pos + n, pos + n + rb.len()) =~= spec_params_bytes(ps).subrange(n, n + rb.len()));
        }
        assert forall|i: int| 0 <= i < rest.len() implies param_writable(#[trigger] rest[i]) by {
            assert(rest[i] == ps[i + 1]);
        }
        lemma_param_list_reads_back(e, pos + n, rest);
        assert((ps.len() - 1) as nat == rest.len());
    }
}

/// True when a method reads back as written: ASCII name, return type name
/// and comment whose lengths fit their 16-bit fields; a return type, when
/// there is one, with a type code that reads back, a 16-byte GUID, and a
/// size or a name (else it reads back as none); parameters that read back
/// and fit their count; attributes that read back and fit their count, with
/// the `ATTRIBUTES` flag set when there are any; and an entry length that
/// fits its 32-bit field with room for an attribute count after it.
pub open spec fn method_writable(v: MethodInfoView) -> bool {
    &&& is_ascii_chars(v.name) && v.name.len() < 65536
    &&& is_ascii_chars(spec_return_name(v)) && spec_return_name(v).len() < 65536
    &&& is_ascii_chars(v.comment) && v.comment.len() < 65536
    &&& match v.return_type {
        Some(r) => ads_type_id_canonical(r.2) && r.3.len() == 16 && (r.0 != 0 || r.4.len() > 0),
        None => true,
    }
    &&& v.parameters.len() < 65536
    &&& forall|i: int| 0 <= i < v.parameters.len() ==> param_writable(#[trigger] v.parameters[i])
    &&& v.attributes.len() < 65536
    &&& forall|i: int| 0 <= i < v.attributes.len() ==> attr_writable(#[trigger] v.attributes[i])
    &&& v.attributes.len() > 0 ==> v.flags & 0x8 == 0x8
    &&& spec_method_size(v) + 2 <= u32::MAX
}

/// The fields of the entry `e` hold those of the method `v`, where the
/// parser reads them.
#[verifier::opaque]
pub open spec fn method_fields_hold(e: Seq<u8>, v: MethodInfoView) -> bool {
    let n = v.name.len() as int;
    let r = spec_return_name(v).len() as int;
    let c = v.comment.len() as int;
    let ce = 59 + n + r + c;
    let pe = ce + spec_params_bytes(v.parameters).len();
    let rf = spec_return_fields(v);
    &&& method_writable(v)
    &&& e.len() == spec_method_size(v)
    &&& seq_u32(e, 4) == v.version
    &&& seq_u32(e, 8) == v.vtable_index
    &&& seq_u32(e, 12) == rf.0
    &&& seq_u32(e, 16) == rf.1
    &&& e.subrange(24, 40) == rf.2
    &&& ads_type_id_of(seq_u32(e, 40)) == rf.3
    &&& seq_u32(e, 44) == v.flags
    &&& le_u16(e[48], e[49]) == n
    &&& le_u16(e[50], e[51]) == r
    &&& le_u16(e[52], e[53]) == c
    &&& le_u16(e[54], e[55]) == v.parameters.len()
    &&& e.subrange(56, 56 + n) == encode_utf8(v.name)
    &&& e.subrange(57 + n, 57 + n + r) == encode_utf8(spec_return_name(v))
    &&& e.subrange(58 + n + r, 58 + n + r + c) == encode_utf8(v.comment)
    &&& spec_param_list(e, ce, v.parameters.len()) == (v.parameters, Outcome::<int>::Value(pe))
    &&& v.attributes.len() == 0 ==> e.len() == pe
    &&& v.attributes.len() > 0 ==> pe + 2 <= e.len() && spec_attr_list(
        e,
        pe + 2,
        le_u16(e[pe], e[pe + 1]) as nat,
        false,
        false,
    ) == (v.attributes, Outcome::<int>::Value(e.len() as int))
}

/// What the parser gives for an entry whose fields hold those of `v`.
#[verifier::rlimit(60)]
proof fn lemma_method_parse_fields(e: Seq<u8>, v: MethodInfoView)
    requires
        method_fields_hold(e, v),
    ensures
        spec_method_entry(e) == Outcome::<MethodInfoView>::Value(v),
{
    reveal(method_fields_hold);
    let ret = spec_return_name(v);
    lemma_ascii_utf8_cp1252(v.name);
    lemma_ascii_utf8_cp1252(ret);
    lemma_ascii_utf8_cp1252(v.comment);
    let n = v.name.len() as int;
    let r = ret.len() as int;
    let c = v.comment.len() as int;
    let name_end = 57 + n;
    let ret_end = name_end + r + 1;
    let comment_end = ret_end + c + 1;
    assert(spec_text(e.subrange(56, name_end - 1)) == v.name);
    assert(spec_text(e.subrange(name_end, ret_end - 1)) == ret);
    assert(spec_text(e.subrange(ret_end, comment_end - 1)) == v.comment);
    let return_type = if seq_u32(e, 12) == 0 && ret.len() == 0 {
        None
    } else {
        Some((seq_u32(e, 12), seq_u32(e, 16), ads_type_id_of(seq_u32(e, 40)), e.subrange(24, 40), ret))
    };
    assert(return_type == v.return_type);
    let pe = comment_end + spec_params_bytes(v.parameters).len();
    let params = spec_param_list(e, comment_end, le_u16(e[54], e[55]) as nat);
    assert(params == (v.parameters, Outcome::<int>::Value(pe)));
    let flags = seq_u32(e, 44);
    let attrs = if flags & 0x8 == 0x8 && pe + 2 <= e.len() {
        spec_attr_list(e, pe + 2, le_u16(e[pe], e[pe + 1]) as nat, false, false)
    } else {
        (Seq::empty(), Outcome::Value(pe))
    };
    if v.attributes.len() == 0 {
        assert(v.attributes =~= Seq::<AttrView>::empty());
    }
    assert(attrs.0 == v.attributes);
    assert(attrs.1 is Value);
    let w = MethodInfoView {
        version: seq_u32(e, 4),
        vtable_index: seq_u32(e, 8),
        flags,
        name: spec_text(e.subrange(56, name_end - 1)),
        comment: spec_text(e.subrange(ret_end, comment_end - 1)),
        return_type,
        parameters: params.0,
        attributes: attrs.0,
    };
    assert(w == v);
    assert(!(comment_end - 1 > e.len()));
    assert(!(flags & 0x8 == 0x8 && pe + 2 > usize::MAX));
    assert(spec_method_entry(e) == Outcome::<MethodInfoView>::Value(w));
}

/// The fields that the parser reads from a method header.
#[verifier::rlimit(60)]
proof fn lemma_method_head(b: Seq<u8>, v: MethodInfoView, el: u32)
    requires
        spec_return_fields(v).2.len() == 16,
        ads_type_id_canonical(spec_return_fields(v).3),
        b.len() >= 56,
        b.subrange(0, 56) == spec_method_head(v, el),
    ensures
        seq_u32(b, 0) == el,
        seq_u32(b, 4) == v.version,
        seq_u32(b, 8) == v.vtable_index,
        seq_u32(b, 12) == spec_return_fields(v).0,
        seq_u32(b, 16) == spec_return_fields(v).1,
        b.subrange(24, 40) == spec_return_fields(v).2,
        ads_type_id_of(seq_u32(b, 40)) == spec_return_fields(v).3,
        seq_u32(b, 44) == v.flags,
        le_u16(b[48], b[49]) == (text_len(v.name) % 65536) as u16,
        le_u16(b[50], b[51]) == (text_len(spec_return_name(v)) % 65536) as u16,
        le_u16(b[52], b[53]) == (text_len(v.comment) % 65536) as u16,
        le_u16(b[54], b[55]) == (v.parameters.len() % 65536) as u16,
{
    let h = spec_method_head(v, el);
    let rf = spec_return_fields(v);
    assert(h.len() == 56);
    assert forall|i: int| 0 <= i < 56 implies b[i] == #[trigger] h[i] by {
        assert(b.subrange(0, 56)[i] == b[i]);
    }
    lemma_u32_roundtrip(el);
    lemma_u32_roundtrip(v.version);
    lemma_u32_roundtrip(v.vtable_index);
    lemma_u32_roundtrip(rf.0);
    lemma_u32_roundtrip(rf.1);
    lemma_u32_roundtrip(ads_type_id_code(rf.3));
    lemma_u32_roundtrip(v.flags);
    lemma_ads_type_id_roundtrip(rf.3);
    lemma_u16_roundtrip((text_len(v.name) % 65536) as u16);
    lemma_u16_roundtrip((text_len(spec_return_name(v)) % 65536) as u16);
    lemma_u16_roundtrip((text_len(v.comment) % 65536) as u16);
    lemma_u16_roundtrip((v.parameters.len() % 65536) as u16);
    assert(b[0] == h[0] && b[1] == h[1] && b[2] == h[2] && b[3] == h[3]);
    assert(b[4] == h[4] && b[5] == h[5] && b[6] == h[6] && b[7] == h[7]);
    assert(b[8] == h[8] && b[9] == h[9] && b[10] == h[10] && b[11] == h[11]);
    assert(b[12] == h[12] && b[13] == h[13] && b[14] == h[14] && b[15] == h[15]);
    assert(b[16] == h[16] && b[17] == h[17] && b[18] == h[18] && b[19] == h[19]);
    assert(b[40] == h[40] && b[41] == h[41] && b[42] == h[42] && b[43] == h[43]);
    assert(b[44] == h[44] && b[45] == h[45] && b[46] == h[46] && b[47] == h[47]);
    assert(b[48] == h[48] && b[49] == h[49] && b[50] == h[50] && b[51] == h[51]);
    assert(b[52] == h[52] && b[53] == h[53] && b[54] == h[54] && b[55] == h[55]);
    assert(b.subrange(24, 40) =~= rf.2) by {
        assert forall|i: int| 0 <= i < 16 implies b.subrange(24, 40)[i] == rf.2[i] by {
            assert(b[24 + i] == h[24 + i]);
        }
    }
}

/// A writable method's bytes are as long as its size, and their header holds
/// its fields.
#[verifier::rlimit(100)]
proof fn lemma_method_bytes_head(v: MethodInfoView)
    requires
        method_writable(v),
    ensures
        ({
            let b = spec_method_bytes(v);
            let rf = spec_return_fields(v);
            &&& b.len() == spec_method_size(v)
            &&& seq_u32(b, 0) == b.len()
            &&& seq_u32(b, 4) == v.version
            &&& seq_u32(b, 8) == v.vtable_index
            &&& seq_u32(b, 12) == rf.0
            &&& seq_u32(b, 16) == rf.1
            &&& b.subrange(24, 40) == rf.2
            &&& ads_type_id_of(seq_u32(b, 40)) == rf.3
            &&& seq_u32(b, 44) == v.flags
            &&& le_u16(b[48], b[49]) == v.name.len()
            &&& le_u16(b[50], b[51]) == spec_return_name(v).len()
            &&& le_u16(b[52], b[53]) == v.comment.len()
            &&& le_u16(b[54], b[55]) == v.parameters.len()
        }),
{
    reveal(spec_method_bytes);
    let b = spec_method_bytes(v);
    let el = spec_method_size(v);
    lemma_ascii_utf8_cp1252(v.name);
    lemma_ascii_utf8_cp1252(spec_return_name(v));
    lemma_ascii_utf8_cp1252(v.comment);
    lemma_method_writable_guids(v);
    lemma_method_bytes_len(v);
    let head = spec_method_head(v, el as u32);
    let strings = spec_method_strings(v);
    let params = spec_params_bytes(v.parameters);
    let tail = spec_method_tail(v);
    assert(saturating_usize(el) == el);
    assert(head.len() == 56);
    let hs = head + strings;
    let hsp = hs + params;
    assert(b == hsp + tail);
    assert(b.len() == el);
    lemma_subrange_left(hsp, tail, 0, 56);
    lemma_subrange_left(hs, params, 0, 56);
    lemma_subrange_left(head, strings, 0, 56);
    assert(head.subrange(0, 56) =~= head);
    lemma_method_head(b, v, el as u32);
}

/// The strings of a writable method's bytes are its name, return type name
/// and comment.
#[verifier::rlimit(60)]
proof fn lemma_method_bytes_strings(v: MethodInfoView)
    requires
        method_writable(v),
    ensures
        ({
            let b = spec_method_bytes(v);
            let n = v.name.len() as int;
            let r = spec_return_name(v).len() as int;
            let c = v.comment.len() as int;
            &&& b.subrange(56, 56 + n) == encode_utf8(v.name)
            &&& b.subrange(57 + n, 57 + n + r) == encode_utf8(spec_return_name(v))
            &&& b.subrange(58 + n + r, 58 + n + r + c) == encode_utf8(v.comment)
        }),
{
    reveal(spec_method_bytes);
    let b = spec_method_bytes(v);
    let el = spec_method_size(v);
    let ret = spec_return_name(v);
    lemma_ascii_utf8_cp1252(v.name);
    lemma_ascii_utf8_cp1252(ret);
    lemma_ascii_utf8_cp1252(v.comment);
    let n = v.name.len() as int;
    let r = ret.len() as int;
    let c = v.comment.len() as int;
    let head = spec_method_head(v, saturating_usize(el) as u32);
    let strings = spec_method_strings(v);
    let params = spec_params_bytes(v.parameters);
    let tail = spec_method_tail(v);
    assert(head.len() == 56);
    let hs = head + strings;
    let hsp = hs + params;
    assert(b == hsp + tail);
    let s1 = encode_utf8(v.name) + seq![0u8];
    let s2 = s1 + encode_utf8(ret) + seq![0u8];
    assert(strings == s2 + encode_utf8(v.comment) + seq![0u8]);
    assert(strings.subrange(0, n) =~= encode_utf8(v.name));
    assert(strings.subrange(n + 1, n + 1 + r) =~= encode_utf8(ret));
    assert(strings.subrange(n + r + 2, n + r + 2 + c) =~= encode_utf8(v.comment));
    lemma_subrange_right(head, strings, 0, n);
    lemma_subrange_right(head, strings, n + 1, n + 1 + r);
    lemma_subrange_right(head, strings, n + r + 2, n + r + 2 + c);
    lemma_subrange_left(hs, params, 56, 56 + n);
    lemma_subrange_left(hs, params, 57 + n, 57 + n + r);
    lemma_subrange_left(hs, params, 58 + n + r, 58 + n + r + c);
    lemma_subrange_left(hsp, tail, 56, 56 + n);
    lemma_subrange_left(hsp, tail, 57 + n, 57 + n + r);
    lemma_subrange_left(hsp, tail, 58 + n + r, 58 + n + r + c);
    assert(b.subrange(56, 56 + n) == strings.subrange(0, n));
    assert(b.subrange(57 + n, 57 + n + r) == strings.subrange(n + 1, n + 1 + r));
    assert(b.subrange(58 + n + r, 58 + n + r + c) == strings.subrange(n + r + 2, n + r + 2 + c));
}

/// The parameter entries of a writable method's bytes read back as its
/// parameters.
#[verifier::rlimit(60)]
proof fn lemma_method_params_fields(v: MethodInfoView)
    requires
        method_writable(v),
    ensures
        ({
            let b = spec_method_bytes(v);
            let ce = 59 + v.name.len() as int + spec_return_name(v).len() as int + v.comment.len() as int;
            spec_param_list(b, ce, v.parameters.len()) == (
                v.parameters,
                Outcome::<int>::Value(ce + spec_params_bytes(v.parameters).len()),
            )
        }),
{
    reveal(spec_method_bytes);
    let b = spec_method_bytes(v);
    let el = spec_method_size(v);
    let ret = spec_return_name(v);
    lemma_ascii_utf8_cp1252(v.name);
    lemma_ascii_utf8_cp1252(ret);
    lemma_ascii_utf8_cp1252(v.comment);
    lemma_attrs_size_bytes(v.attributes);
    lemma_method_writable_guids(v);
    lemma_params_size_bytes(v.parameters);
    let head = spec_method_head(v, saturating_usize(el) as u32);
    let hs = head + spec_method_strings(v);
    let params = spec_params_bytes(v.parameters);
    let hsp = hs + params;
    let tail = spec_method_tail(v);
    assert(b == hsp + tail);
    assert(head.len() == 56);
    let ce = hs.len() as int;
    lemma_subrange_right(hs, params, 0, params.len() as int);
    lemma_subrange_left(hsp, tail, ce, ce + params.len());
    assert(params.subrange(0, params.len() as int) =~= params);
    lemma_param_list_reads_back(b, ce, v.parameters);
}

/// The attribute block of a writable method's bytes reads back as its
/// attributes.
#[verifier::rlimit(60)]
proof fn lemma_method_tail_fields(v: MethodInfoView)
    requires
        method_writable(v),
        v.attributes.len() > 0,
    ensures
        ({
            let b = spec_method_bytes(v);
            let pe = 59 + v.name.len() as int + spec_return_name(v).len() as int + v.comment.len() as int
                + spec_params_bytes(v.parameters).len();
            &&& pe + 2 <= b.len()
            &&& spec_attr_list(b, pe + 2, le_u16(b[pe], b[pe + 1]) as nat, false, false) == (
                v.attributes,
                Outcome::<int>::Value(b.len() as int),
            )
        }),
{
    reveal(spec_method_bytes);
    let el = spec_method_size(v);
    let ret = spec_return_name(v);
    lemma_ascii_utf8_cp1252(v.name);
    lemma_ascii_utf8_cp1252(ret);
    lemma_ascii_utf8_cp1252(v.comment);
    lemma_attrs_size_bytes(v.attributes);
    lemma_method_writable_guids(v);
    lemma_params_size_bytes(v.parameters);
    let hsp = spec_method_head(v, saturating_usize(el) as u32) + spec_method_strings(v) + spec_params_bytes(v.parameters);
    lemma_attr_block_reads_back(spec_method_bytes(v), hsp, v.attributes, false);
}

/// The bytes of a writable method hold its fields where the parser reads them.
proof fn lemma_method_bytes_fields(v: MethodInfoView)
    requires
        method_writable(v),
    ensures
        method_fields_hold(spec_method_bytes(v), v),
{
    reveal(method_fields_hold);
    lemma_method_bytes_head(v);
    lemma_method_bytes_strings(v);
    lemma_method_params_fields(v);
    if v.attributes.len() > 0 {
        lemma_method_tail_fields(v);
    } else {
        reveal(spec_method_bytes);
        lemma_method_writable_guids(v);
    lemma_params_size_bytes(v.parameters);
        lemma_ascii_utf8_cp1252(v.name);
        lemma_ascii_utf8_cp1252(spec_return_name(v));
        lemma_ascii_utf8_cp1252(v.comment);
    }
}

/// Writing a method and parsing the bytes back gives the same method, and
/// the entry length read is the length written.
pub proof fn lemma_method_roundtrip(v: MethodInfoView)
    requires
        method_writable(v),
    ensures
        spec_parse_method(spec_method_bytes(v)) == Outcome::<(MethodInfoView, int)>::Value((v, spec_method_size(v))),
{
    let b = spec_method_bytes(v);
    lemma_method_bytes_head(v);
    lemma_method_bytes_fields(v);
    assert(b.subrange(0, b.len() as int) =~= b);
    lemma_method_parse_fields(b, v);
}

/// The size of a method entry is the length of its bytes, and the bytes
/// start with that size as their entry length, so that `wire_size` and the
/// length of `to_vec` agree.
pub proof fn lemma_method_wire_size(m: AdsMethodInfo)
    ensures
        spec_method_bytes(m.spec_view()).len() == spec_method_size(m.spec_view()),
        spec_method_bytes(m.spec_view()).subrange(0, 4) == u32_bytes(
            saturating_usize(spec_method_size(m.spec_view())) as u32,
        ),
{
    let v = m.spec_view();
    match m.return_type {
        Some(t) => {
            lemma_return_type_guid(t);
        },
        None => {},
    }
    assert(spec_return_fields(v).2.len() == 16);
    assert forall|i: int| 0 <= i < v.parameters.len() implies (#[trigger] v.parameters[i]).guid.len() == 16 by {
        lemma_param_view_guid(m.parameters@[i]);
    }
    lemma_method_bytes_len(v);
    reveal(spec_method_bytes);
    let head = spec_method_head(v, saturating_usize(spec_method_size(v)) as u32);
    assert(spec_method_bytes(v).subrange(0, 4) =~= head.subrange(0, 4));
}

} // verus!
