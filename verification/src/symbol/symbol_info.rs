//! Symbol (variable) descriptions of the symbol table, and the iteration over
//! a table of them.

use vstd::prelude::*;
use crate::bytes::{le_u16, seq_u32, u16_from_le, u32_from_le};
use crate::codepage::decode_windows_1252;
use crate::error::AdsSymbolInfoError;
use crate::index_group::IndexGroup;
use crate::index_offset::IndexOffset;
use crate::symbol::attributes::AdsAttribute;
use crate::symbol::guid::Guid;
use crate::symbol::parse::{attr_views, parse_attr_list, spec_attr_list, spec_text, AttrView, Outcome};
use crate::symbol::refactor_info::{lemma_refactor_chain_end, spec_refactor_chain, AdsRefactorInfo, RefactorInfoView};
use crate::symbol::symbol_flags::{AdsSymbol2Flags, AdsSymbolFlags};
use crate::symbol::type_id::{ads_type_id_of, AdsTypeId};
use crate::symbol::type_info::refactor_views;

verus! {

/// A symbol description as plain values.
pub struct SymbolInfoView {
    pub index_group: u32,
    pub index_offset: u32,
    pub size: u32,
    pub data_type_id: AdsTypeId,
    pub flags: u16,
    pub extended_flags: Option<u32>,
    pub name: Seq<char>,
    pub data_type_name: Seq<char>,
    pub comment: Seq<char>,
    pub guid: Option<Seq<u8>>,
    pub attributes: Seq<AttrView>,
    pub refactor_infos: Seq<RefactorInfoView>,
    /// The bytes of the entry after the last section read.
    pub reserved: int,
}

/// The extended flags and the refactoring chain after the attributes at
/// `pos`: the flags are read when flagged and four bytes are left; the chain
/// when the extended flags say so and a byte is left, and a chain that fails
/// to parse is left out. The result also holds the position after them.
pub open spec fn spec_symbol_ext(e: Seq<u8>, pos: int, flags: u16) -> (Option<u32>, Seq<RefactorInfoView>, int) {
    if flags & 0x8000 == 0x8000 && pos + 4 <= e.len() {
        let ext = seq_u32(e, pos);
        let p = pos + 4;
        if ext & 0x4 == 0x4 && p < e.len() {
            match spec_refactor_chain(e.subrange(p, e.len() as int), 0) {
                Ok((rs, n)) => (Some(ext), rs, p + n),
                Err(_) => (Some(ext), Seq::empty(), p),
            }
        } else {
            (Some(ext), Seq::empty(), p)
        }
    } else {
        (None, Seq::empty(), pos)
    }
}

/// The symbol that an entry of exactly `e.len()` bytes (at least 30) holds.
pub open spec fn spec_symbol_entry(e: Seq<u8>) -> Outcome<SymbolInfoView, AdsSymbolInfoError> {
    let el = e.len() as int;
    let name_end = 31 + le_u16(e[24], e[25]);
    let type_end = name_end + le_u16(e[26], e[27]) + 1;
    let comment_end = type_end + le_u16(e[28], e[29]) + 1;
    let flags = le_u16(e[20], e[21]);
    if el < comment_end {
        Outcome::Error(AdsSymbolInfoError::EntryLengthMismatch { expected: comment_end as usize, got: el as usize })
    } else {
        let has_guid = flags & 0x8 == 0x8 && comment_end + 16 <= el;
        let p1 = if has_guid { comment_end + 16 } else { comment_end };
        let attrs = if flags & 0x1000 == 0x1000 && p1 + 2 <= el {
            spec_attr_list(e, p1 + 2, le_u16(e[p1], e[p1 + 1]) as nat, true, true)
        } else {
            (Seq::empty(), Outcome::Value(p1))
        };
        match attrs.1 {
            Outcome::Value(p2) => {
                let ext = spec_symbol_ext(e, p2, flags);
                if ext.2 > el {
                    Outcome::Error(AdsSymbolInfoError::EntryLengthMismatch { expected: el as usize, got: ext.2 as usize })
                } else {
                    Outcome::Value(
                        SymbolInfoView {
                            index_group: seq_u32(e, 4),
                            index_offset: seq_u32(e, 8),
                            size: seq_u32(e, 12),
                            data_type_id: ads_type_id_of(seq_u32(e, 16)),
                            flags,
                            extended_flags: ext.0,
                            name: spec_text(e.subrange(30, name_end - 1)),
                            data_type_name: spec_text(e.subrange(name_end, type_end - 1)),
                            comment: spec_text(e.subrange(type_end, comment_end - 1)),
                            guid: if has_guid { Some(e.subrange(comment_end, comment_end + 16)) } else { None },
                            attributes: attrs.0,
                            refactor_infos: ext.1,
                            reserved: el - ext.2,
                        },
                    )
                }
            },
            _ => Outcome::Panic,
        }
    }
}

/// The symbol entry at the start of `d` and its length.
pub open spec fn spec_parse_symbol(d: Seq<u8>) -> Outcome<(SymbolInfoView, int), AdsSymbolInfoError> {
    if d.len() < 30 {
        Outcome::Error(AdsSymbolInfoError::TooShort { expected: 30, got: d.len() as usize })
    } else {
        let el = seq_u32(d, 0) as int;
        if d.len() < el {
            Outcome::Error(AdsSymbolInfoError::EntryLengthMismatch { expected: el as usize, got: d.len() as usize })
        } else if el < 30 {
            Outcome::Panic
        } else {
            match spec_symbol_entry(d.subrange(0, el)) {
                Outcome::Value(v) => Outcome::Value((v, el)),
                Outcome::Error(err) => Outcome::Error(err),
                Outcome::Panic => Outcome::Panic,
            }
        }
    }
}

/// A symbol (variable) description of the symbol table.
#[derive(Debug, Clone, PartialEq, Eq)]
pub struct AdsSymbolInfo {
    index_group: IndexGroup,
    index_offset: IndexOffset,
    size: u32,
    data_type_id: AdsTypeId,
    flags: AdsSymbolFlags,
    extended_flags: Option<AdsSymbol2Flags>,
    name: String,
    data_type_name: String,
    comment: String,
    guid: Option<Guid>,
    attributes: Vec<AdsAttribute>,
    refactor_infos: Vec<AdsRefactorInfo>,
    reserved: usize,
}

impl AdsSymbolInfo {
    /// Size of the fixed header in bytes.
    pub const MIN_LENGTH: usize = 30;

    /// The description as plain values.
    pub closed spec fn spec_view(self) -> SymbolInfoView {
        SymbolInfoView {
            index_group: self.index_group.spec_value(),
            index_offset: self.index_offset.spec_value(),
            size: self.size,
            data_type_id: self.data_type_id,
            flags: self.flags.spec_bits(),
            extended_flags: match self.extended_flags {
                Some(f) => Some(f.spec_bits()),
                None => None,
            },
            name: self.name@,
            data_type_name: self.data_type_name@,
            comment: self.comment@,
            guid: match self.guid {
                Some(g) => Some(g.spec_bytes()),
                None => None,
            },
            attributes: attr_views(self.attributes@),
            refactor_infos: refactor_views(self.refactor_infos@),
            reserved: self.reserved as int,
        }
    }

    /// The index group of the memory area that holds the symbol.
    pub fn index_group(&self) -> (r: u32)
        ensures
            r == self.spec_view().index_group,
    {
        self.index_group.as_u32()
    }

    /// The offset of the symbol in its index group.
    pub fn index_offset(&self) -> (r: u32)
        ensures
            r == self.spec_view().index_offset,
    {
        self.index_offset.as_u32()
    }

    /// The size of the symbol's data in bytes (0 for a bit value).
    pub fn size(&self) -> (r: u32)
        ensures
            r == self.spec_view().size,
    {
        self.size
    }

    /// The primitive data type of the symbol.
    pub fn data_type_id(&self) -> (r: AdsTypeId)
        ensures
            r == self.spec_view().data_type_id,
    {
        self.data_type_id
    }

    /// The symbol flags.
    pub fn flags(&self) -> (r: AdsSymbolFlags)
        ensures
            r.spec_bits() == self.spec_view().flags,
    {
        self.flags
    }

    /// The extended symbol flags, when the entry carries them.
    pub fn extended_flags(&self) -> (r: Option<AdsSymbol2Flags>)
        ensures
            match self.spec_view().extended_flags {
                Some(b) => r matches Some(f) && f.spec_bits() == b,
                None => r is None,
            },
    {
        self.extended_flags
    }

    /// The full instance path of the symbol (such as `MAIN.stMotor`).
    pub fn name(&self) -> (r: &str)
        ensures
            r@ == self.spec_view().name,
    {
        self.name.as_str()
    }

    /// The name of the symbol's data type.
    pub fn data_type_name(&self) -> (r: &str)
        ensures
            r@ == self.spec_view().data_type_name,
    {
        self.data_type_name.as_str()
    }

    /// The comment of the symbol.
    pub fn comment(&self) -> (r: &str)
        ensures
            r@ == self.spec_view().comment,
    {
        self.comment.as_str()
    }

    /// The GUID of the symbol's type, when the entry carries one.
    pub fn guid(&self) -> (r: Option<&Guid>)
        ensures
            match self.spec_view().guid {
                Some(b) => r matches Some(g) && g.spec_bytes() == b,
                None => r is None,
            },
    {
        match &self.guid {
            Some(g) => Some(g),
            None => None,
        }
    }

    /// The attributes of the symbol.
    pub fn attributes(&self) -> (r: &[AdsAttribute])
        ensures
            attr_views(r@) == self.spec_view().attributes,
    {
        self.attributes.as_slice()
    }

    /// The refactoring history of the symbol.
    pub fn refactor_infos(&self) -> (r: &[AdsRefactorInfo])
        ensures
            refactor_views(r@) == self.spec_view().refactor_infos,
    {
        self.refactor_infos.as_slice()
    }

    /// Parses a symbol entry at the start of a slice; returns it and the
    /// entry length.
    pub fn try_from_slice(data: &[u8]) -> (r: Result<(AdsSymbolInfo, usize), AdsSymbolInfoError>)
        requires
            !(spec_parse_symbol(data@) is Panic),
        ensures
            match spec_parse_symbol(data@) {
                Outcome::Value((v, n)) => r matches Ok((s, m)) && s.spec_view() == v && m == n,
                Outcome::Error(err) => r == Err::<(AdsSymbolInfo, usize), AdsSymbolInfoError>(err),
                Outcome::Panic => false,
            },
    {
        let len = data.len();
        if len < Self::MIN_LENGTH {
            return Err(AdsSymbolInfoError::TooShort { expected: Self::MIN_LENGTH, got: len });
        }
        let entry_length = u32_from_le([data[0], data[1], data[2], data[3]]) as usize;
        if len < entry_length {
            return Err(AdsSymbolInfoError::EntryLengthMismatch { expected: entry_length, got: len });
        }
        match Self::parse_entry(&data[0..entry_length]) {
            Ok(s) => Ok((s, entry_length)),
            Err(e) => Err(e),
        }
    }

    /// Reads the extended flags and the refactoring chain at `pos`.
    fn parse_ext(entry: &[u8], pos: usize, flags: AdsSymbolFlags) -> (r: (
        Option<AdsSymbol2Flags>,
        Vec<AdsRefactorInfo>,
        usize,
    ))
        requires
            pos <= usize::MAX,
        ensures
            ({
                let s = spec_symbol_ext(entry@, pos as int, flags.spec_bits());
                &&& match s.0 {
                    Some(b) => r.0 matches Some(f) && f.spec_bits() == b,
                    None => r.0 is None,
                }
                &&& refactor_views(r.1@) == s.1
                &&& r.2 == s.2
            }),
    {
        let el = entry.len();
        let mut refactor_infos: Vec<AdsRefactorInfo> = Vec::new();
        assert(refactor_views(refactor_infos@) =~= Seq::<RefactorInfoView>::empty());
        if flags.has_extended_flags() && pos <= el && el - pos >= 4 {
            let ext = AdsSymbol2Flags::from_bytes([entry[pos], entry[pos + 1], entry[pos + 2], entry[pos + 3]]);
            let p = pos + 4;
            if ext.has_refactor_info() && p < el {
                match AdsRefactorInfo::parse_chain(&entry[p..el]) {
                    Ok((infos, consumed)) => {
                        proof {
                            lemma_refactor_chain_end(entry@.subrange(p as int, el as int), 0);
                        }
                        return (Some(ext), infos, p + consumed);
                    },
                    Err(_) => {},
                }
            }
            return (Some(ext), refactor_infos, p);
        }
        (None, refactor_infos, pos)
    }

    /// Parses a symbol entry of exactly the slice's length.
    #[verifier::rlimit(30)]
    fn parse_entry(entry: &[u8]) -> (r: Result<AdsSymbolInfo, AdsSymbolInfoError>)
        requires
            entry@.len() >= 30,
            !(spec_symbol_entry(entry@) is Panic),
        ensures
            match spec_symbol_entry(entry@) {
                Outcome::Value(v) => r matches Ok(s) && s.spec_view() == v,
                Outcome::Error(err) => r == Err::<AdsSymbolInfo, AdsSymbolInfoError>(err),
                Outcome::Panic => false,
            },
    {
        let el = entry.len();
        let index_group = IndexGroup::from_bytes([entry[4], entry[5], entry[6], entry[7]]);
        let index_offset = IndexOffset::from_bytes([entry[8], entry[9], entry[10], entry[11]]);
        let size = u32_from_le([entry[12], entry[13], entry[14], entry[15]]);
        let data_type_id = AdsTypeId::from_bytes([entry[16], entry[17], entry[18], entry[19]]);
        let flags = AdsSymbolFlags::from_bytes([entry[20], entry[21]]);
        // bytes 22..24 hold the legacy array dimension count, always zero
        let name_length = u16_from_le([entry[24], entry[25]]) as usize;
        let type_name_length = u16_from_le([entry[26], entry[27]]) as usize;
        let comment_length = u16_from_le([entry[28], entry[29]]) as usize;
        let name_end = Self::MIN_LENGTH + name_length + 1;
        let type_end = name_end + type_name_length + 1;
        let comment_end = type_end + comment_length + 1;
        if el < comment_end {
            return Err(AdsSymbolInfoError::EntryLengthMismatch { expected: comment_end, got: el });
        }
        let name = decode_windows_1252(&entry[Self::MIN_LENGTH..name_end - 1]);
        let data_type_name = decode_windows_1252(&entry[name_end..type_end - 1]);
        let comment = decode_windows_1252(&entry[type_end..comment_end - 1]);
        let mut pos = comment_end;
        let mut guid: Option<Guid> = None;
        if flags.has_type_guid() && el - pos >= 16 {
            let g = match Guid::try_from_slice(&entry[pos..pos + 16]) {
                Ok(g) => g,
                Err(_) => Guid::new([0u8; 16]),
            };
            guid = Some(g);
            pos = pos + 16;
        }
        let mut attributes: Vec<AdsAttribute> = Vec::new();
        assert(attr_views(attributes@) =~= Seq::<AttrView>::empty());
        if flags.has_attributes() && el - pos >= 2 {
            let attr_count = u16_from_le([entry[pos], entry[pos + 1]]) as usize;
            match parse_attr_list(entry, pos + 2, attr_count, true, true, &mut attributes) {
                Ok(p) => {
                    pos = p;
                },
                Err(_) => {
                    // a malformed attribute ends the list without an error
                },
            }
        }
        let (extended_flags, refactor_infos, pos) = Self::parse_ext(entry, pos, flags);
        if pos > el {
            return Err(AdsSymbolInfoError::EntryLengthMismatch { expected: el, got: pos });
        }
        Ok(AdsSymbolInfo {
            index_group,
            index_offset,
            size,
            data_type_id,
            flags,
            extended_flags,
            name,
            data_type_name,
            comment,
            guid,
            attributes,
            refactor_infos,
            reserved: el - pos,
        })
    }
}

/// One step over a table of symbol entries from `cursor` on: the entry read
/// there (none at the end of the table) and the cursor after it. A table too
/// short for the length field or for the entry's length ends the iteration
/// with an error, and so does an entry that declares a length of zero (after
/// the error of parsing it).
pub open spec fn spec_next_symbol(d: Seq<u8>, cursor: int) -> (Option<Outcome<SymbolInfoView, AdsSymbolInfoError>>, int) {
    if cursor >= d.len() {
        (None, cursor)
    } else if cursor + 4 > d.len() {
        (Some(Outcome::Error(AdsSymbolInfoError::TooShort { expected: (cursor + 4) as usize, got: d.len() as usize })), d.len() as int)
    } else {
        let el = seq_u32(d, cursor) as int;
        if cursor + el > d.len() {
            (
                Some(
                    Outcome::Error(
                        AdsSymbolInfoError::EntryLengthMismatch { expected: el as usize, got: (d.len() - cursor) as usize },
                    ),
                ),
                d.len() as int,
            )
        } else {
            (
                Some(
                    match spec_parse_symbol(d.subrange(cursor, cursor + el)) {
                        Outcome::Value((v, _)) => Outcome::Value(v),
                        Outcome::Error(err) => Outcome::Error(err),
                        Outcome::Panic => Outcome::Panic,
                    },
                ),
                if el == 0 { d.len() as int } else { cursor + el },
            )
        }
    }
}

/// The step result as the executable value it stands for.
pub open spec fn next_symbol_matches(
    r: Option<Result<AdsSymbolInfo, AdsSymbolInfoError>>,
    s: Option<Outcome<SymbolInfoView, AdsSymbolInfoError>>,
) -> bool {
    match s {
        None => r is None,
        Some(Outcome::Value(v)) => r matches Some(Ok(t)) && t.spec_view() == v,
        Some(Outcome::Error(err)) => r == Some(Err::<AdsSymbolInfo, AdsSymbolInfoError>(err)),
        Some(Outcome::Panic) => false,
    }
}

/// Reads the symbol entry of a table at `cursor` and moves the cursor to the
/// next entry. When the table is too short for the length field or for the
/// entry, or when the entry declares a length of zero, the cursor moves to
/// the end, so that the iteration stops; an entry that fails to parse still
/// moves the cursor past it.
pub fn parse_next_entry(data: &[u8], cursor: &mut usize) -> (r: Option<Result<AdsSymbolInfo, AdsSymbolInfoError>>)
    requires
        data@.len() <= isize::MAX,
        !(spec_next_symbol(data@, *old(cursor) as int).0 matches Some(Outcome::Panic)),
    ensures
        *final(cursor) == spec_next_symbol(data@, *old(cursor) as int).1,
        next_symbol_matches(r, spec_next_symbol(data@, *old(cursor) as int).0),
{
    let len = data.len();
    let c = *cursor;
    if c >= len {
        return None;
    }
    if len - c < 4 {
        let err = AdsSymbolInfoError::TooShort { expected: c + 4, got: len };
        *cursor = len;
        return Some(Err(err));
    }
    let entry_length = u32_from_le([data[c], data[c + 1], data[c + 2], data[c + 3]]) as usize;
    if entry_length > len - c {
        let err = AdsSymbolInfoError::EntryLengthMismatch { expected: entry_length, got: len - c };
        *cursor = len;
        return Some(Err(err));
    }
    let end = c + entry_length;
    *cursor = if entry_length == 0 { len } else { end };
    match AdsSymbolInfo::try_from_slice(&data[c..end]) {
        Ok((info, _)) => Some(Ok(info)),
        Err(e) => Some(Err(e)),
    }
}

/// Iterates over a table of symbol entries held in a borrowed slice. An
/// entry that fails to parse is yielded as an error and skipped by its length
/// field.
#[derive(Debug, Clone, PartialEq, Eq, PartialOrd, Ord, Hash)]
pub struct AdsSymbolInfoIterator<'a> {
    data: &'a [u8],
    cursor: usize,
}

impl<'a> AdsSymbolInfoIterator<'a> {
    /// The table.
    pub closed spec fn spec_data(self) -> Seq<u8> {
        self.data@
    }

    /// The position of the next entry.
    pub closed spec fn spec_cursor(self) -> int {
        self.cursor as int
    }

    /// Creates an iterator over a table, at its first entry.
    pub fn new(data: &'a [u8]) -> (r: AdsSymbolInfoIterator<'a>)
        ensures
            r.spec_data() == data@,
            r.spec_cursor() == 0,
    {
        AdsSymbolInfoIterator { data, cursor: 0 }
    }

    /// An iterator over a copy of the table, at the same position.
    pub fn into_owned(self) -> (r: AdsSymbolInfoIteratorOwned)
        ensures
            r.spec_data() == self.spec_data(),
            r.spec_cursor() == self.spec_cursor(),
    {
        AdsSymbolInfoIteratorOwned { buffer: vstd::slice::slice_to_vec(self.data), cursor: self.cursor }
    }

    /// An iterator over a copy of the table, at the same position.
    pub fn to_owned(&self) -> (r: AdsSymbolInfoIteratorOwned)
        ensures
            r.spec_data() == self.spec_data(),
            r.spec_cursor() == self.spec_cursor(),
    {
        AdsSymbolInfoIteratorOwned { buffer: vstd::slice::slice_to_vec(self.data), cursor: self.cursor }
    }

    /// The next entry, or `None` at the end of the table.
    pub fn next(&mut self) -> (r: Option<Result<AdsSymbolInfo, AdsSymbolInfoError>>)
        requires
            old(self).spec_data().len() <= isize::MAX,
            !(spec_next_symbol(old(self).spec_data(), old(self).spec_cursor()).0 matches Some(Outcome::Panic)),
        ensures
            final(self).spec_data() == old(self).spec_data(),
            final(self).spec_cursor() == spec_next_symbol(old(self).spec_data(), old(self).spec_cursor()).1,
            next_symbol_matches(r, spec_next_symbol(old(self).spec_data(), old(self).spec_cursor()).0),
    {
        parse_next_entry(self.data, &mut self.cursor)
    }
}

/// Iterates over a table of symbol entries held in an owned buffer.
#[derive(Debug, Clone, PartialEq, Eq, PartialOrd, Ord, Hash)]
pub struct AdsSymbolInfoIteratorOwned {
    buffer: Vec<u8>,
    cursor: usize,
}

impl AdsSymbolInfoIteratorOwned {
    /// The table.
    pub closed spec fn spec_data(self) -> Seq<u8> {
        self.buffer@
    }

    /// The position of the next entry.
    pub closed spec fn spec_cursor(self) -> int {
        self.cursor as int
    }

    /// Creates an iterator over a table, at its first entry.
    pub fn new(buffer: Vec<u8>) -> (r: AdsSymbolInfoIteratorOwned)
        ensures
            r.spec_data() == buffer@,
            r.spec_cursor() == 0,
    {
        AdsSymbolInfoIteratorOwned { buffer, cursor: 0 }
    }

    /// A borrowed iterator over the same table at the same position; moving
    /// it does not move this one.
    pub fn as_view(&self) -> (r: AdsSymbolInfoIterator<'_>)
        ensures
            r.spec_data() == self.spec_data(),
            r.spec_cursor() == self.spec_cursor(),
    {
        AdsSymbolInfoIterator { data: self.buffer.as_slice(), cursor: self.cursor }
    }

    /// The next entry, or `None` at the end of the table.
    pub fn next(&mut self) -> (r: Option<Result<AdsSymbolInfo, AdsSymbolInfoError>>)
        requires
            old(self).spec_data().len() <= isize::MAX,
            !(spec_next_symbol(old(self).spec_data(), old(self).spec_cursor()).0 matches Some(Outcome::Panic)),
        ensures
            final(self).spec_data() == old(self).spec_data(),
            final(self).spec_cursor() == spec_next_symbol(old(self).spec_data(), old(self).spec_cursor()).1,
            next_symbol_matches(r, spec_next_symbol(old(self).spec_data(), old(self).spec_cursor()).0),
    {
        parse_next_entry(self.buffer.as_slice(), &mut self.cursor)
    }
}

/// Each step of the symbol table iteration keeps the cursor within the table and
/// never moves it back: it yields nothing exactly when the cursor is at or
/// past the end, and otherwise moves the cursor forward, so that the
/// iteration ends. An entry of nonzero length that fits in the table is
/// stepped over by its declared length, whether it parses or not, so that
/// the next step starts at the next entry.
pub proof fn lemma_next_symbol_progress(d: Seq<u8>, cursor: int)
    requires
        0 <= cursor,
    ensures
        ({
            let step = spec_next_symbol(d, cursor);
            &&& (step.0 is None) == (cursor >= d.len())
            &&& step.0 is None ==> step.1 == cursor
            &&& step.0 is Some ==> cursor <= step.1 <= d.len()
            &&& step.0 is Some ==> step.1 > cursor
            &&& cursor + 4 <= d.len() && 0 < seq_u32(d, cursor) && cursor + seq_u32(d, cursor) <= d.len() ==> step.1 == cursor + seq_u32(d, cursor)
        }),
{
}

} // verus!
