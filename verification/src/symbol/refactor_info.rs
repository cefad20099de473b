//! Refactoring history of data types: chained entries of former names.

use vstd::prelude::*;
use crate::bytes::{
    extend_bytes, le_u16, lemma_u16_roundtrip, lemma_u32_roundtrip, saturating_usize, seq_u32, u16_bytes, u16_from_le, u16_to_le,
    u32_bytes, u32_from_le, u32_to_le,
};
use crate::codepage::{cp1252_bytes, cp1252_readable, decode_windows_1252, encode_windows_1252, lemma_cp1252_text_roundtrip};
use crate::error::AdsTypeInfoError;
use crate::symbol::parse::spec_text;

verus! {

/// A refactoring entry as plain values: (refactor count, next flag, name).
pub type RefactorInfoView = (u32, bool, Option<Seq<char>>);

/// The entry at the start of `d` and its size, or the error.
pub open spec fn spec_parse_refactor(d: Seq<u8>) -> Result<(RefactorInfoView, int), AdsTypeInfoError> {
    if d.len() < 7 {
        Err(AdsTypeInfoError::TooShort { expected: 7, got: d.len() as usize })
    } else {
        let packed = seq_u32(d, 0);
        let name_length = le_u16(d[4], d[5]) as int;
        let name_end = 7 + name_length;
        if d.len() < name_end {
            Err(AdsTypeInfoError::TooShort { expected: name_end as usize, got: d.len() as usize })
        } else {
            let name = if name_length > 0 { Some(spec_text(d.subrange(6, 6 + name_length))) } else { None };
            Ok(((packed & 0x01111111, packed & 0x01000000 != 0, name), name_end))
        }
    }
}

/// The chain of entries of `d` from `pos` on, followed while an entry has
/// its next flag set, and the position after the last one.
pub open spec fn spec_refactor_chain(d: Seq<u8>, pos: int) -> Result<(Seq<RefactorInfoView>, int), AdsTypeInfoError>
    decreases d.len() - pos,
{
    if pos < 0 || pos > d.len() {
        Err(AdsTypeInfoError::TooShort { expected: 7, got: 0 })
    } else {
        match spec_parse_refactor(d.subrange(pos, d.len() as int)) {
            Err(e) => Err(e),
            Ok((v, n)) => if !v.1 {
                Ok((seq![v], pos + n))
            } else if 7 <= n && pos + n <= d.len() {
                match spec_refactor_chain(d, pos + n) {
                    Ok((rest, end)) => Ok((seq![v] + rest, end)),
                    Err(e) => Err(e),
                }
            } else {
                Err(AdsTypeInfoError::TooShort { expected: 7, got: 0 })
            },
        }
    }
}

/// A chain read from `pos` on ends after `pos` and within `d`.
pub proof fn lemma_refactor_chain_end(d: Seq<u8>, pos: int)
    ensures
        spec_refactor_chain(d, pos) matches Ok((_, end)) ==> pos <= end <= d.len(),
    decreases d.len() - pos,
{
    if 0 <= pos <= d.len() {
        match spec_parse_refactor(d.subrange(pos, d.len() as int)) {
            Ok((v, n)) => {
                if v.1 && 7 <= n && pos + n <= d.len() {
                    lemma_refactor_chain_end(d, pos + n);
                }
            },
            Err(_) => {},
        }
    }
}

/// The packed first word of an entry: the refactor count under its mask,
/// with the next flag when another entry follows.
pub open spec fn spec_refactor_packed(count: u32, has_next: bool) -> u32 {
    if has_next {
        (count & 0x01111111) | 0x01000000
    } else {
        count & 0x01111111
    }
}

/// The wire bytes of an entry: packed word, name length (truncated to 16
/// bits), Windows-1252 name, NUL.
pub open spec fn spec_refactor_bytes(v: RefactorInfoView, has_next: bool) -> Seq<u8> {
    let name = match v.2 {
        Some(n) => cp1252_bytes(n),
        None => Seq::empty(),
    };
    u32_bytes(spec_refactor_packed(v.0, has_next)) + u16_bytes((name.len() % 65536) as u16) + name + seq![0u8]
}

/// The wire bytes of a chain of entries, the next flag set on all but the last.
pub open spec fn spec_refactor_chain_bytes(s: Seq<RefactorInfoView>, total: int) -> Seq<u8>
    decreases s.len(),
{
    if s.len() == 0 {
        Seq::empty()
    } else {
        spec_refactor_chain_bytes(s.drop_last(), total) + spec_refactor_bytes(s.last(), s.len() - 1 < total - 1)
    }
}

/// One entry of the refactoring history of a data type.
#[derive(Debug, Clone, PartialEq, Eq)]
pub struct AdsRefactorInfo {
    /// The refactor counter (the packed word under the count mask).
    pub refactor_count: u32,
    /// True when another entry follows.
    pub next_refactor_info: bool,
    /// The former name, when the entry has one.
    pub name: Option<String>,
}

impl AdsRefactorInfo {
    /// Smallest wire size: packed word, name length, NUL.
    pub const MIN_LENGTH: usize = 7;
    /// Mask of the refactor count in the packed word.
    pub const REFACTOR_COUNT_MASK: u32 = 0x01111111;
    /// Mask of the next flag in the packed word.
    pub const NEXT_REFACTOR_INFO_MASK: u32 = 0x01000000;

    /// The entry as plain values.
    pub open spec fn spec_view(self) -> RefactorInfoView {
        (
            self.refactor_count,
            self.next_refactor_info,
            match self.name {
                Some(n) => Some(n@),
                None => None,
            },
        )
    }

    /// The refactor counter.
    pub fn refactor_count(&self) -> (r: u32)
        ensures
            r == self.refactor_count,
    {
        self.refactor_count
    }

    /// True when another entry follows.
    pub fn next_refactor_info(&self) -> (r: bool)
        ensures
            r == self.next_refactor_info,
    {
        self.next_refactor_info
    }

    /// The former name, when the entry has one.
    pub fn name(&self) -> (r: Option<&str>)
        ensures
            match self.name {
                Some(n) => r matches Some(s) && s@ == n@,
                None => r is None,
            },
    {
        match &self.name {
            Some(n) => Some(n.as_str()),
            None => None,
        }
    }

    /// The size of the entry on the wire: packed word, name length, the
    /// Windows-1252 name, NUL (saturating at `usize::MAX`).
    pub fn wire_size(&self) -> (r: usize)
        ensures
            r == saturating_usize(
                7 + match self.name {
                    Some(n) => cp1252_bytes(n@).len() as int,
                    None => 0,
                },
            ),
    {
        let name_len = match &self.name {
            Some(n) => {
                let (enc, _) = encode_windows_1252(n.as_str());
                assert(enc@ == cp1252_bytes(n@));
                enc.len()
            },
            None => 0,
        };
        name_len.saturating_add(7)
    }

    /// The wire bytes of the entry, with the next flag as given.
    pub fn to_vec_with_next(&self, has_next: bool) -> (r: Vec<u8>)
        ensures
            r@ == spec_refactor_bytes(self.spec_view(), has_next),
    {
        let packed = if has_next {
            (self.refactor_count & Self::REFACTOR_COUNT_MASK) | Self::NEXT_REFACTOR_INFO_MASK
        } else {
            self.refactor_count & Self::REFACTOR_COUNT_MASK
        };
        let name_enc: Vec<u8> = match &self.name {
            Some(n) => {
                let (enc, _) = encode_windows_1252(n.as_str());
                enc
            },
            None => Vec::new(),
        };
        let mut buf: Vec<u8> = Vec::new();
        let p = u32_to_le(packed);
        extend_bytes(&mut buf, p.as_slice());
        let l = u16_to_le((name_enc.len() % 65536) as u16);
        extend_bytes(&mut buf, l.as_slice());
        extend_bytes(&mut buf, name_enc.as_slice());
        buf.push(0);
        assert(buf@ =~= spec_refactor_bytes(self.spec_view(), has_next));
        buf
    }

    /// A complete refactoring section: the entry count (truncated to 16 bits)
    /// and the entries, the next flag set on all but the last.
    pub fn entries_to_vec(entries: &[AdsRefactorInfo]) -> (r: Vec<u8>)
        ensures
            r@ == u16_bytes((entries@.len() % 65536) as u16) + spec_refactor_chain_bytes(
                entries@.map_values(|e: AdsRefactorInfo| e.spec_view()),
                entries@.len() as int,
            ),
    {
        let n = entries.len();
        let mut buf: Vec<u8> = Vec::new();
        let c = u16_to_le((n % 65536) as u16);
        extend_bytes(&mut buf, c.as_slice());
        let ghost views = entries@.map_values(|e: AdsRefactorInfo| e.spec_view());
        let mut i: usize = 0;
        while i < n
            invariant
                0 <= i <= n,
                n == entries@.len(),
                views == entries@.map_values(|e: AdsRefactorInfo| e.spec_view()),
                buf@ == u16_bytes((n % 65536) as u16) + spec_refactor_chain_bytes(views.subrange(0, i as int), n as int),
            decreases n - i,
        {
            let has_next = i < n - 1;
            let b = entries[i].to_vec_with_next(has_next);
            extend_bytes(&mut buf, b.as_slice());
            proof {
                let s = views.subrange(0, i + 1);
                assert(s.drop_last() =~= views.subrange(0, i as int));
                assert(s.last() == entries@[i as int].spec_view());
            }
            i = i + 1;
        }
        assert(views.subrange(0, n as int) =~= views);
        buf
    }

    /// Parses an entry at the start of a slice; returns it and its size.
    pub fn try_from_slice(data: &[u8]) -> (r: Result<(AdsRefactorInfo, usize), AdsTypeInfoError>)
        ensures
            match spec_parse_refactor(data@) {
                Ok((v, n)) => r matches Ok((e, m)) && e.spec_view() == v && m == n,
                Err(err) => r == Err::<(AdsRefactorInfo, usize), AdsTypeInfoError>(err),
            },
    {
        let len = data.len();
        if len < Self::MIN_LENGTH {
            return Err(AdsTypeInfoError::TooShort { expected: Self::MIN_LENGTH, got: len });
        }
        let packed = u32_from_le([data[0], data[1], data[2], data[3]]);
        let refactor_count = packed & Self::REFACTOR_COUNT_MASK;
        let next_refactor_info = (packed & Self::NEXT_REFACTOR_INFO_MASK) != 0;
        let name_length = u16_from_le([data[4], data[5]]) as usize;
        let name_end = 6 + name_length + 1;
        if len < name_end {
            return Err(AdsTypeInfoError::TooShort { expected: name_end, got: len });
        }
        let name = if name_length > 0 {
            Some(decode_windows_1252(&data[6..6 + name_length]))
        } else {
            None
        };
        Ok((AdsRefactorInfo { refactor_count, next_refactor_info, name }, name_end))
    }

    /// Parses a chain of entries, following the next flags; returns the
    /// entries and the total size.
    pub fn parse_chain(data: &[u8]) -> (r: Result<(Vec<AdsRefactorInfo>, usize), AdsTypeInfoError>)
        ensures
            match spec_refactor_chain(data@, 0) {
                Ok((vs, n)) => r matches Ok((es, m)) && es@.map_values(|e: AdsRefactorInfo| e.spec_view()) == vs
                    && m == n,
                Err(err) => r == Err::<(Vec<AdsRefactorInfo>, usize), AdsTypeInfoError>(err),
            },
    {
        let mut entries: Vec<AdsRefactorInfo> = Vec::new();
        let mut pos: usize = 0;
        let len = data.len();
        loop
            invariant
                0 <= pos <= len,
                len == data@.len(),
                spec_refactor_chain(data@, 0) == match spec_refactor_chain(data@, pos as int) {
                    Ok((rest, end)) => Ok((entries@.map_values(|e: AdsRefactorInfo| e.spec_view()) + rest, end)),
                    Err(e) => Err::<(Seq<RefactorInfoView>, int), AdsTypeInfoError>(e),
                },
            decreases len - pos,
        {
            let ghost before = entries@.map_values(|e: AdsRefactorInfo| e.spec_view());
            let (entry, consumed) = match AdsRefactorInfo::try_from_slice(&data[pos..len]) {
                Ok(x) => x,
                Err(e) => {
                    return Err(e);
                },
            };
            let has_next = entry.next_refactor_info;
            let ghost v = entry.spec_view();
            entries.push(entry);
            assert(entries@.map_values(|e: AdsRefactorInfo| e.spec_view()) =~= before.push(v));
            pos = pos + consumed;
            if !has_next {
                assert(before.push(v) =~= before + seq![v]);
                return Ok((entries, pos));
            }
            proof {
                match spec_refactor_chain(data@, pos as int) {
                    Ok((rest, end)) => {
                        assert(before + (seq![v] + rest) =~= before.push(v) + rest);
                    },
                    Err(e) => {},
                }
            }
        }
    }
}

/// True when an entry reads back as written: its count does not hold the
/// next flag's bit, and its name, if any, reads back and fits its 16-bit
/// length.
pub open spec fn refactor_entry_writable(v: RefactorInfoView) -> bool {
    &&& v.0 & 0x01000000 == 0
    &&& v.2 matches Some(n) ==> cp1252_readable(n) && n.len() < 65536
}

/// What an entry written with the next flag `has_next` reads back as: the
/// packed word as its count, the flag, and the name unless it is empty.
pub open spec fn refactor_read_back(v: RefactorInfoView, has_next: bool) -> RefactorInfoView {
    (
        spec_refactor_packed(v.0, has_next),
        has_next,
        match v.2 {
            Some(n) => if n.len() > 0 {
                Some(n)
            } else {
                None
            },
            None => None,
        },
    )
}

/// The packed word keeps its bits under the count mask, and holds the next
/// flag exactly when it was written with it.
proof fn lemma_refactor_packed(count: u32, has_next: bool)
    requires
        count & 0x01000000 == 0,
    ensures
        spec_refactor_packed(count, has_next) & 0x01111111 == spec_refactor_packed(count, has_next),
        (spec_refactor_packed(count, has_next) & 0x01000000 != 0) == has_next,
{
    if has_next {
        assert(((count & 0x01111111) | 0x01000000) & 0x01111111 == (count & 0x01111111) | 0x01000000) by (bit_vector);
        assert(((count & 0x01111111) | 0x01000000) & 0x01000000 != 0) by (bit_vector);
    } else {
        assert((count & 0x01111111) & 0x01111111 == count & 0x01111111) by (bit_vector);
        assert(count & 0x01000000 == 0 ==> (count & 0x01111111) & 0x01000000 == 0) by (bit_vector);
    }
}

/// An entry written with the next flag `has_next`, followed by any data,
/// parses as what it reads back as, over the bytes written.
pub proof fn lemma_refactor_prefix(d: Seq<u8>, v: RefactorInfoView, has_next: bool)
    requires
        refactor_entry_writable(v),
        d.len() >= spec_refactor_bytes(v, has_next).len(),
        d.subrange(0, spec_refactor_bytes(v, has_next).len() as int) == spec_refactor_bytes(v, has_next),
    ensures
        spec_refactor_bytes(v, has_next).len() >= 7,
        spec_parse_refactor(d) == Ok::<(RefactorInfoView, int), AdsTypeInfoError>(
            (refactor_read_back(v, has_next), spec_refactor_bytes(v, has_next).len() as int),
        ),
{
    let b = spec_refactor_bytes(v, has_next);
    let name = match v.2 {
        Some(n) => cp1252_bytes(n),
        None => Seq::empty(),
    };
    if let Some(n) = v.2 {
        lemma_cp1252_text_roundtrip(n);
    }
    let p = spec_refactor_packed(v.0, has_next);
    let nl = name.len() as int;
    assert(b.len() == 7 + nl);
    assert forall|i: int| 0 <= i < b.len() implies d[i] == #[trigger] b[i] by {
        assert(d.subrange(0, b.len() as int)[i] == d[i]);
    }
    lemma_u32_roundtrip(p);
    lemma_u16_roundtrip(nl as u16);
    lemma_refactor_packed(v.0, has_next);
    assert(d[0] == b[0] && d[1] == b[1] && d[2] == b[2] && d[3] == b[3] && d[4] == b[4] && d[5] == b[5]);
    assert(seq_u32(d, 0) == p);
    assert(le_u16(d[4], d[5]) == nl);
    assert forall|i: int| 0 <= i < nl implies d.subrange(6, 6 + nl)[i] == name[i] by {
        assert(d[6 + i] == b[6 + i]);
    }
    assert(d.subrange(6, 6 + nl) =~= name);
}

/// What a chain of entries written with its next flags reads back as: each
/// entry read back with the flag set on all but the last.
pub open spec fn refactor_chain_read_back(s: Seq<RefactorInfoView>) -> Seq<RefactorInfoView> {
    Seq::new(s.len(), |i: int| refactor_read_back(s[i], i < s.len() - 1))
}

/// The bytes of the first `j` entries of a chain are a prefix of those of
/// the first `k`, for `j <= k`.
proof fn lemma_refactor_chain_bytes_prefix(s: Seq<RefactorInfoView>, j: int, k: int, total: int)
    requires
        0 <= j <= k <= s.len(),
    ensures
        spec_refactor_chain_bytes(s.subrange(0, j), total).len() <= spec_refactor_chain_bytes(s.subrange(0, k), total).len(),
        spec_refactor_chain_bytes(s.subrange(0, k), total).subrange(
            0,
            spec_refactor_chain_bytes(s.subrange(0, j), total).len() as int,
        ) == spec_refactor_chain_bytes(s.subrange(0, j), total),
    decreases k - j,
{
    let bj = spec_refactor_chain_bytes(s.subrange(0, j), total);
    if j == k {
        assert(bj.subrange(0, bj.len() as int) =~= bj);
    } else {
        lemma_refactor_chain_bytes_prefix(s, j, k - 1, total);
        let sk = s.subrange(0, k);
        assert(sk.drop_last() =~= s.subrange(0, k - 1));
        assert(sk.last() == s[k - 1]);
        let bk1 = spec_refactor_chain_bytes(s.subrange(0, k - 1), total);
        let bk = spec_refactor_chain_bytes(sk, total);
        assert(bk == bk1 + spec_refactor_bytes(s[k - 1], k - 1 < total - 1));
        assert(bk.subrange(0, bj.len() as int) =~= bk1.subrange(0, bj.len() as int));
    }
}

/// The bytes of the entry `k` of a chain follow those of the entries before it.
proof fn lemma_refactor_chain_entry(s: Seq<RefactorInfoView>, k: int)
    requires
        0 <= k < s.len(),
    ensures
        ({
            let total = s.len() as int;
            let d = spec_refactor_chain_bytes(s, total);
            let a = spec_refactor_chain_bytes(s.subrange(0, k), total).len() as int;
            let e = spec_refactor_bytes(s[k], k < total - 1);
            &&& spec_refactor_chain_bytes(s.subrange(0, k + 1), total).len() == a + e.len()
            &&& a + e.len() <= d.len()
            &&& d.subrange(a, a + e.len()) == e
        }),
{
    let total = s.len() as int;
    let sk = s.subrange(0, k + 1);
    assert(sk.drop_last() =~= s.subrange(0, k));
    assert(sk.last() == s[k]);
    lemma_refactor_chain_bytes_prefix(s, k + 1, total, total);
    assert(s.subrange(0, total) =~= s);
    let d = spec_refactor_chain_bytes(s, total);
    let b1 = spec_refactor_chain_bytes(sk, total);
    let a = spec_refactor_chain_bytes(s.subrange(0, k), total).len() as int;
    let e = spec_refactor_bytes(s[k], k < total - 1);
    assert(b1 == spec_refactor_chain_bytes(s.subrange(0, k), total) + e);
    assert(d.subrange(a, a + e.len()) =~= b1.subrange(a, a + e.len()));
}

/// Reading a written chain from the start of its entry `k` gives the rest
/// of the chain read back, up to the end of the bytes.
proof fn lemma_refactor_chain_reads_back_from(s: Seq<RefactorInfoView>, k: int)
    requires
        0 <= k < s.len(),
        forall|i: int| 0 <= i < s.len() ==> refactor_entry_writable(#[trigger] s[i]),
    ensures
        ({
            let total = s.len() as int;
            let d = spec_refactor_chain_bytes(s, total);
            let a = spec_refactor_chain_bytes(s.subrange(0, k), total).len() as int;
            spec_refactor_chain(d, a) == Ok::<(Seq<RefactorInfoView>, int), AdsTypeInfoError>(
                (refactor_chain_read_back(s).subrange(k, total), d.len() as int),
            )
        }),
    decreases s.len() - k,
{
    let total = s.len() as int;
    let d = spec_refactor_chain_bytes(s, total);
    let a = spec_refactor_chain_bytes(s.subrange(0, k), total).len() as int;
    let has_next = k < total - 1;
    let e = spec_refactor_bytes(s[k], has_next);
    lemma_refactor_chain_entry(s, k);
    let t = d.subrange(a, d.len() as int);
    assert(t.subrange(0, e.len() as int) =~= d.subrange(a, a + e.len()));
    assert(refactor_entry_writable(s[k]));
    lemma_refactor_prefix(t, s[k], has_next);
    let rb = refactor_chain_read_back(s);
    assert(rb[k] == refactor_read_back(s[k], has_next));
    if k == total - 1 {
        assert(s.subrange(0, k + 1) =~= s);
        assert(rb.subrange(k, total) =~= seq![rb[k]]);
    } else {
        lemma_refactor_chain_reads_back_from(s, k + 1);
        assert(rb.subrange(k, total) =~= seq![rb[k]] + rb.subrange(k + 1, total));
    }
}

/// Writing a chain of entries and reading it back gives each entry back,
/// with its count packed with the next flag and the flag set on all but the
/// last one, up to the end of the bytes; empty names read back as none.
pub proof fn lemma_refactor_chain_roundtrip(s: Seq<RefactorInfoView>)
    requires
        s.len() > 0,
        forall|i: int| 0 <= i < s.len() ==> refactor_entry_writable(#[trigger] s[i]),
    ensures
        spec_refactor_chain(spec_refactor_chain_bytes(s, s.len() as int), 0) == Ok::<
            (Seq<RefactorInfoView>, int),
            AdsTypeInfoError,
        >((refactor_chain_read_back(s), spec_refactor_chain_bytes(s, s.len() as int).len() as int)),
{
    lemma_refactor_chain_reads_back_from(s, 0);
    assert(s.subrange(0, 0) =~= Seq::<RefactorInfoView>::empty());
    assert(spec_refactor_chain_bytes(s.subrange(0, 0), s.len() as int) =~= Seq::<u8>::empty());
    assert(refactor_chain_read_back(s).subrange(0, s.len() as int) =~= refactor_chain_read_back(s));
}

/// The bytes of an entry are as long as its wire size: packed word, name
/// length, the Windows-1252 name and its NUL.
pub proof fn lemma_refactor_bytes_len(v: RefactorInfoView, has_next: bool)
    ensures
        spec_refactor_bytes(v, has_next).len() == 7 + match v.2 {
            Some(n) => cp1252_bytes(n).len() as int,
            None => 0,
        },
{
}

} // verus!
