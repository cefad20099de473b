//! What the entry parsers of the symbol and type tables compute, stated over
//! byte sequences, and the attribute lists they share.

use vstd::prelude::*;
use crate::codepage::{cp1252_bytes, cp1252_readable, cp1252_text};
use crate::error::AdsTypeInfoError;
use crate::bytes::{extend_bytes, le_u16, lemma_u16_roundtrip, saturating_usize, u16_bytes};
use crate::symbol::attributes::{
    attribute_entry_len, attribute_name_bytes, attribute_value_bytes, lemma_attribute_roundtrip, spec_attribute_bytes,
    AdsAttribute,
};

verus! {

/// The outcome of parsing an entry: a value, an error, or `Panic` for input
/// the parser does not take (an index or a sum would leave its range).
pub enum Outcome<T, E = AdsTypeInfoError> {
    Value(T),
    Error(E),
    Panic,
}

/// An attribute as plain values: (name, value).
pub type AttrView = (Seq<char>, Seq<char>);

/// The text that Windows-1252 bytes decode to.
pub open spec fn spec_text(b: Seq<u8>) -> Seq<char> {
    cp1252_text(b)
}

/// The attribute that an entry at the start of `d` holds, or the error.
pub open spec fn spec_parse_attribute(d: Seq<u8>) -> Result<AttrView, AdsTypeInfoError> {
    if d.len() < 4 {
        Err(AdsTypeInfoError::TooShort { expected: 4, got: d.len() as usize })
    } else if d.len() < attribute_entry_len(d) {
        Err(AdsTypeInfoError::UnexpectedLength { expected: attribute_entry_len(d) as usize, got: d.len() as usize })
    } else {
        Ok((spec_text(attribute_name_bytes(d)), spec_text(attribute_value_bytes(d))))
    }
}

/// The wire size of an attribute written from its name and value: two
/// length bytes, the Windows-1252 name and value, and their NULs.
pub open spec fn spec_attr_advance(a: AttrView) -> int {
    (4 + cp1252_bytes(a.0).len() + cp1252_bytes(a.1).len()) as int
}

/// Parsing up to `count` attributes of `d` from `pos` on; each attribute is
/// stepped over by the size its length bytes declare. With `stop_at_end`
/// the list ends once the position reaches the end of `d`; with
/// `stop_on_error` a malformed attribute ends the list instead of failing it.
/// The result is the attributes read (before an error, too) and the outcome:
/// the position after them, or the error.
pub open spec fn spec_attr_list(d: Seq<u8>, pos: int, count: nat, stop_at_end: bool, stop_on_error: bool) -> (
    Seq<AttrView>,
    Outcome<int>,
)
    decreases count,
{
    if count == 0 {
        (Seq::empty(), Outcome::Value(pos))
    } else if pos > d.len() {
        (Seq::empty(), Outcome::Panic)
    } else {
        match spec_parse_attribute(d.subrange(pos, d.len() as int)) {
            Err(e) => if stop_on_error {
                (Seq::empty(), Outcome::Value(pos))
            } else {
                (Seq::empty(), Outcome::Error(e))
            },
            Ok(a) => {
                let next = pos + attribute_entry_len(d.subrange(pos, d.len() as int));
                if stop_at_end && next >= d.len() {
                    (seq![a], Outcome::Value(next))
                } else {
                    let rest = spec_attr_list(d, next, (count - 1) as nat, stop_at_end, stop_on_error);
                    (seq![a] + rest.0, rest.1)
                }
            },
        }
    }
}

/// The plain values of a list of attributes.
pub open spec fn attr_views(v: Seq<AdsAttribute>) -> Seq<AttrView> {
    v.map_values(|a: AdsAttribute| a.spec_view())
}

/// Parses up to `count` attributes of `d` from `pos` on and appends them to
/// `out` (those read before an error, too); returns the position after them.
pub fn parse_attr_list(
    d: &[u8],
    pos: usize,
    count: usize,
    stop_at_end: bool,
    stop_on_error: bool,
    out: &mut Vec<AdsAttribute>,
) -> (r: Result<usize, AdsTypeInfoError>)
    requires
        !(spec_attr_list(d@, pos as int, count as nat, stop_at_end, stop_on_error).1 is Panic),
    ensures
        ({
            let s = spec_attr_list(d@, pos as int, count as nat, stop_at_end, stop_on_error);
            &&& attr_views(final(out)@) == attr_views(old(out)@) + s.0
            &&& match s.1 {
                Outcome::Value(end) => r == Ok::<usize, AdsTypeInfoError>(end as usize) && 0 <= end <= usize::MAX,
                Outcome::Error(e) => r == Err::<usize, AdsTypeInfoError>(e),
                Outcome::Panic => false,
            }
        }),
    decreases count,
{
    if count == 0 {
        assert(attr_views(out@) =~= attr_views(out@) + Seq::<AttrView>::empty());
        return Ok(pos);
    }
    let n = d.len();
    let attr = match AdsAttribute::try_from_slice(&d[pos..n]) {
        Ok(a) => a,
        Err(e) => {
            assert(attr_views(out@) =~= attr_views(out@) + Seq::<AttrView>::empty());
            if stop_on_error {
                return Ok(pos);
            } else {
                return Err(e);
            }
        },
    };
    let next = pos + 4 + d[pos] as usize + d[pos + 1] as usize;
    let ghost a = attr.spec_view();
    let ghost before = attr_views(out@);
    out.push(attr);
    assert(attr_views(out@) =~= before.push(a));
    if stop_at_end && next >= n {
        assert(attr_views(out@) =~= before + seq![a]);
        return Ok(next);
    }
    let ghost mid = out@;
    let r = parse_attr_list(d, next, count - 1, stop_at_end, stop_on_error, out);
    proof {
        let rest = spec_attr_list(d@, next as int, (count - 1) as nat, stop_at_end, stop_on_error);
        assert(before.push(a) + rest.0 =~= before + (seq![a] + rest.0));
    }
    r
}

/// The wire bytes of a list of attributes, one after the other.
pub open spec fn spec_attrs_bytes(s: Seq<AttrView>) -> Seq<u8>
    decreases s.len(),
{
    if s.len() == 0 {
        Seq::empty()
    } else {
        spec_attrs_bytes(s.drop_last()) + spec_attribute_bytes(s.last().0, s.last().1)
    }
}

/// Appends the wire bytes of attributes to a buffer.
pub fn write_attrs(attrs: &Vec<AdsAttribute>, buf: &mut Vec<u8>)
    ensures
        final(buf)@ == old(buf)@ + spec_attrs_bytes(attr_views(attrs@)),
{
    let ghost start = buf@;
    let mut i: usize = 0;
    while i < attrs.len()
        invariant
            0 <= i <= attrs@.len(),
            buf@ == start + spec_attrs_bytes(attr_views(attrs@.subrange(0, i as int))),
        decreases attrs@.len() - i,
    {
        let b = attrs[i].to_vec();
        extend_bytes(buf, b.as_slice());
        proof {
            let s = attr_views(attrs@.subrange(0, i + 1));
            assert(s.drop_last() =~= attr_views(attrs@.subrange(0, i as int)));
            assert(s.last() == attrs@[i as int].spec_view());
        }
        i = i + 1;
    }
    assert(attrs@.subrange(0, attrs@.len() as int) =~= attrs@);
}

/// The sum of the advances of a list of attributes.
pub open spec fn spec_attrs_size(s: Seq<AttrView>) -> int
    decreases s.len(),
{
    if s.len() == 0 {
        0
    } else {
        spec_attrs_size(s.drop_last()) + spec_attr_advance(s.last())
    }
}

/// The total of the wire sizes of attributes (saturating at `usize::MAX`).
pub fn attrs_wire_size(attrs: &Vec<AdsAttribute>) -> (r: usize)
    ensures
        r == saturating_usize(spec_attrs_size(attr_views(attrs@))),
{
    let mut total: usize = 0;
    let mut i: usize = 0;
    while i < attrs.len()
        invariant
            0 <= i <= attrs@.len(),
            total == saturating_usize(spec_attrs_size(attr_views(attrs@.subrange(0, i as int)))),
            spec_attrs_size(attr_views(attrs@.subrange(0, i as int))) >= 0,
        decreases attrs@.len() - i,
    {
        let ws = attrs[i].wire_size();
        proof {
            let s = attr_views(attrs@.subrange(0, i + 1));
            assert(s.drop_last() =~= attr_views(attrs@.subrange(0, i as int)));
            assert(s.last() == attrs@[i as int].spec_view());
        }
        total = total.saturating_add(ws);
        i = i + 1;
    }
    assert(attrs@.subrange(0, attrs@.len() as int) =~= attrs@);
    total
}

/// True when an attribute reads back as written: a name and a value that
/// read back in Windows-1252, of at most 255 characters each.
pub open spec fn attr_writable(a: AttrView) -> bool {
    cp1252_readable(a.0) && cp1252_readable(a.1) && a.0.len() <= 255 && a.1.len() <= 255
}

/// The bytes of a list of attributes are those of its first attribute
/// followed by those of the rest.
pub proof fn lemma_attrs_bytes_cons(a: AttrView, rest: Seq<AttrView>)
    ensures
        spec_attrs_bytes(seq![a] + rest) == spec_attribute_bytes(a.0, a.1) + spec_attrs_bytes(rest),
    decreases rest.len(),
{
    let s = seq![a] + rest;
    if rest.len() == 0 {
        assert(s.drop_last() =~= Seq::<AttrView>::empty());
        assert(spec_attrs_bytes(s.drop_last()) =~= Seq::<u8>::empty());
        assert(s.last() == a);
        assert(spec_attrs_bytes(rest) =~= Seq::<u8>::empty());
        assert(spec_attrs_bytes(s) =~= spec_attribute_bytes(a.0, a.1) + spec_attrs_bytes(rest));
    } else {
        assert(s.drop_last() =~= seq![a] + rest.drop_last());
        assert(s.last() == rest.last());
        lemma_attrs_bytes_cons(a, rest.drop_last());
        assert(spec_attrs_bytes(s) =~= spec_attribute_bytes(a.0, a.1) + spec_attrs_bytes(rest));
    }
}

/// A list of attributes written at `pos` reads back as the same list, and
/// the position after it is the end of the written bytes: a written list has
/// no malformed entry, and no entry but the last one reaches the end.
pub proof fn lemma_attr_list_reads_back(
    d: Seq<u8>,
    pos: int,
    attrs: Seq<AttrView>,
    stop_at_end: bool,
    stop_on_error: bool,
)
    requires
        0 <= pos,
        pos + spec_attrs_bytes(attrs).len() <= d.len(),
        pos + spec_attrs_bytes(attrs).len() <= usize::MAX,
        d.subrange(pos, pos + spec_attrs_bytes(attrs).len()) == spec_attrs_bytes(attrs),
        forall|i: int| 0 <= i < attrs.len() ==> attr_writable(#[trigger] attrs[i]),
    ensures
        spec_attr_list(d, pos, attrs.len(), stop_at_end, stop_on_error) == (
            attrs,
            Outcome::<int>::Value(pos + spec_attrs_bytes(attrs).len()),
        ),
    decreases attrs.len(),
{
    if attrs.len() == 0 {
        assert(attrs =~= Seq::<AttrView>::empty());
    } else {
        let a = attrs[0];
        let rest = attrs.drop_first();
        assert(attrs =~= seq![a] + rest);
        lemma_attrs_bytes_cons(a, rest);
        assert(attr_writable(a));
        lemma_attribute_roundtrip(a.0, a.1);
        let ab = spec_attribute_bytes(a.0, a.1);
        let rb = spec_attrs_bytes(rest);
        let n = ab.len() as int;
        let t = d.subrange(pos, d.len() as int);
        assert(t.subrange(0, n) =~= ab) by {
            assert(d.subrange(pos, pos + n) =~= spec_attrs_bytes(attrs).subrange(0, n));
        }
        assert(t[0] == ab[0] && t[1] == ab[1]) by {
            assert(t.subrange(0, n)[0] == t[0]);
            assert(t.subrange(0, n)[1] == t[1]);
        }
        assert(attribute_name_bytes(t) =~= attribute_name_bytes(ab));
        assert(attribute_value_bytes(t) =~= attribute_value_bytes(ab));
        assert(spec_parse_attribute(t) == Ok::<AttrView, AdsTypeInfoError>(a));
        assert(spec_attr_advance(a) == n);
        let next = pos + n;
        if rest.len() > 0 {
            lemma_attrs_bytes_cons(rest[0], rest.drop_first());
            assert(rest =~= seq![rest[0]] + rest.drop_first());
            assert(rb.len() >= 4);
        }
        if stop_at_end && next >= d.len() {
            assert(rest.len() == 0);
            assert(rest =~= Seq::<AttrView>::empty());
        } else {
            assert(d.subrange(next, next + rb.len()) =~= rb) by {
                assert(d.subrange(next, next + rb.len()) =~= spec_attrs_bytes(attrs).subrange(n, n + rb.len()));
            }
            assert forall|i: int| 0 <= i < rest.len() implies attr_writable(#[trigger] rest[i]) by {
                assert(rest[i] == attrs[i + 1]);
            }
            lemma_attr_list_reads_back(d, next, rest, stop_at_end, stop_on_error);
            assert((attrs.len() - 1) as nat == rest.len());
        }
    }
}

/// The sizes the parsers move by over a list of attributes add up to the
/// length of the list's bytes.
pub proof fn lemma_attrs_size_bytes(s: Seq<AttrView>)
    ensures
        spec_attrs_size(s) == spec_attrs_bytes(s).len(),
    decreases s.len(),
{
    if s.len() > 0 {
        lemma_attrs_size_bytes(s.drop_last());
    }
}

/// An attribute block (a 16-bit count, then the attributes) that ends the
/// bytes `b` reads back as its attributes, up to the end of `b`.
pub proof fn lemma_attr_block_reads_back(b: Seq<u8>, pre: Seq<u8>, attrs: Seq<AttrView>, stop_at_end: bool)
    requires
        b == pre + (u16_bytes((attrs.len() % 65536) as u16) + spec_attrs_bytes(attrs)),
        attrs.len() < 65536,
        b.len() <= usize::MAX,
        forall|i: int| 0 <= i < attrs.len() ==> attr_writable(#[trigger] attrs[i]),
    ensures
        pre.len() + 2 <= b.len(),
        le_u16(b[pre.len() as int], b[pre.len() + 1int]) == attrs.len(),
        spec_attr_list(b, pre.len() + 2int, attrs.len(), stop_at_end, false) == (
            attrs,
            Outcome::<int>::Value(b.len() as int),
        ),
{
    let ab = spec_attrs_bytes(attrs);
    let k = (attrs.len() % 65536) as u16;
    let p = pre.len() as int;
    lemma_u16_roundtrip(k);
    assert(b[p] == u16_bytes(k)[0]);
    assert(b[p + 1] == u16_bytes(k)[1]);
    assert(b.subrange(p + 2, p + 2 + ab.len()) =~= ab);
    lemma_attr_list_reads_back(b, p + 2, attrs, stop_at_end, false);
}

} // verus!
