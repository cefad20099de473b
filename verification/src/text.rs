//! Texts: comparisons by their characters, and the text forms of numbers
//! and flag sets.

use vstd::prelude::*;

verus! {

/// `s` starts with `p`.
pub open spec fn seq_starts_with(s: Seq<char>, p: Seq<char>) -> bool {
    p.len() <= s.len() && s.subrange(0, p.len() as int) == p
}

/// `p` occurs in `s` at position `i`.
pub open spec fn seq_occurs_at(s: Seq<char>, p: Seq<char>, i: int) -> bool {
    0 <= i && i + p.len() <= s.len() && s.subrange(i, i + p.len()) == p
}

/// `p` occurs somewhere in `s`.
pub open spec fn seq_contains(s: Seq<char>, p: Seq<char>) -> bool {
    exists|i: int| seq_occurs_at(s, p, i)
}

/// The characters of a text.
pub fn text_chars(s: &str) -> (r: Vec<char>)
    ensures
        r@ == s@,
{
    let mut v: Vec<char> = Vec::new();
    for c in it: s.chars()
        invariant
            v@ == it.seq().subrange(0, it.index() as int),
            it.seq() == s@,
    {
        v.push(c);
    }
    assert(v@ =~= s@);
    v
}

/// `String::push`: appends a character to a string.
///
/// Trusted: std documents that the character is appended at the end.
#[verifier::external_body]
pub(crate) fn string_push(s: &mut String, c: char)
    ensures
        final(s)@ == old(s)@.push(c),
{
    s.push(c)
}

/// The lower-case hexadecimal digit of a value below 16.
pub open spec fn hex_digit(n: int) -> char {
    if n < 10 {
        (48 + n) as char
    } else {
        (87 + n) as char
    }
}

/// The lower-case hexadecimal digit of a value below 16.
pub(crate) fn hex_char(n: u8) -> (r: char)
    requires
        n < 16,
    ensures
        r == hex_digit(n as int),
{
    if n < 10 {
        (48 + n) as char
    } else {
        (87 + n) as char
    }
}

/// True when `p` occurs in `s` at position `i`.
fn chars_occur_at(s: &Vec<char>, p: &Vec<char>, i: usize) -> (r: bool)
    ensures
        r == seq_occurs_at(s@, p@, i as int),
{
    if i > s.len() || p.len() > s.len() - i {
        return false;
    }
    let sl = s.len();
    let mut j: usize = 0;
    while j < p.len()
        invariant
            sl == s@.len(),
            i + p@.len() <= s@.len(),
            j <= p@.len(),
            forall|k: int| 0 <= k < j ==> s@[i + k] == p@[k],
        decreases p@.len() - j,
    {
        if s[i + j] != p[j] {
            assert(s@.subrange(i as int, i + p@.len())[j as int] != p@[j as int]);
            return false;
        }
        j = j + 1;
    }
    assert(s@.subrange(i as int, i + p@.len()) =~= p@);
    true
}

/// True when two texts are equal.
pub fn text_eq(a: &str, b: &str) -> (r: bool)
    ensures
        r == (a@ == b@),
{
    let x = text_chars(a);
    let y = text_chars(b);
    if x.len() != y.len() {
        return false;
    }
    let r = chars_occur_at(&x, &y, 0);
    assert(r ==> x@.subrange(0, y@.len() as int) == y@);
    assert(x@.subrange(0, x@.len() as int) =~= x@);
    r
}

/// True when `s` starts with `p`.
pub fn text_starts_with(s: &str, p: &str) -> (r: bool)
    ensures
        r == seq_starts_with(s@, p@),
{
    let x = text_chars(s);
    let y = text_chars(p);
    chars_occur_at(&x, &y, 0)
}

/// True when `p` occurs in `s`.
pub fn text_contains(s: &str, p: &str) -> (r: bool)
    ensures
        r == seq_contains(s@, p@),
{
    let x = text_chars(s);
    let y = text_chars(p);
    if y.len() > x.len() {
        return false;
    }
    let last = x.len() - y.len();
    let mut i: usize = 0;
    loop
        invariant
            x@ == s@,
            y@ == p@,
            last == x@.len() - y@.len(),
            i <= last,
            forall|k: int| 0 <= k < i ==> !seq_occurs_at(s@, p@, k),
        decreases last - i,
    {
        if chars_occur_at(&x, &y, i) {
            return true;
        }
        if i == last {
            assert forall|k: int| #![auto] seq_occurs_at(s@, p@, k) implies 0 <= k <= last by {}
            return false;
        }
        i = i + 1;
    }
}

/// True when the character `c` occurs in `s`.
pub fn text_contains_char(s: &str, c: char) -> (r: bool)
    ensures
        r == s@.contains(c),
{
    let x = text_chars(s);
    let mut i: usize = 0;
    while i < x.len()
        invariant
            x@ == s@,
            i <= x@.len(),
            forall|k: int| 0 <= k < i ==> x@[k] != c,
        decreases x@.len() - i,
    {
        if x[i] == c {
            return true;
        }
        i = i + 1;
    }
    false
}

/// Appends the characters of `t` to `s`.
pub fn push_text(s: &mut String, t: &str)
    ensures
        final(s)@ == old(s)@ + t@,
{
    let ghost start = s@;
    let cs = text_chars(t);
    let mut i: usize = 0;
    while i < cs.len()
        invariant
            i <= cs@.len(),
            cs@ == t@,
            s@ == start + t@.subrange(0, i as int),
        decreases cs@.len() - i,
    {
        string_push(s, cs[i]);
        i = i + 1;
        assert(s@ =~= start + t@.subrange(0, i as int));
    }
    assert(t@.subrange(0, t@.len() as int) =~= t@);
}

/// The lower-case hexadecimal digits of `n`, without leading zeros.
pub open spec fn hex_lower(n: nat) -> Seq<char>
    decreases n,
{
    if n < 16 {
        seq![hex_digit(n as int)]
    } else {
        hex_lower(n / 16).push(hex_digit((n % 16) as int))
    }
}

/// Appends the lower-case hexadecimal digits of `n`.
pub fn push_hex_lower(s: &mut String, n: u32)
    ensures
        final(s)@ == old(s)@ + hex_lower(n as nat),
    decreases n,
{
    if n >= 16 {
        push_hex_lower(s, n / 16);
    }
    string_push(s, hex_char((n % 16) as u8));
    proof {
        assert(old(s)@ + hex_lower(n as nat) =~= (if n >= 16 { old(s)@ + hex_lower((n / 16) as nat) } else {
            old(s)@
        }).push(hex_digit((n % 16) as int)));
    }
}

/// The decimal digits of `n`, without leading zeros.
pub open spec fn dec_text(n: nat) -> Seq<char>
    decreases n,
{
    if n < 10 {
        seq![(48 + n) as char]
    } else {
        dec_text(n / 10).push((48 + n % 10) as char)
    }
}

/// Appends the decimal digits of `n`.
pub fn push_dec(s: &mut String, n: u64)
    ensures
        final(s)@ == old(s)@ + dec_text(n as nat),
    decreases n,
{
    if n >= 10 {
        push_dec(s, n / 10);
    }
    let d = (n % 10) as u32;
    string_push(s, char_of_digit(d));
    proof {
        assert(old(s)@ + dec_text(n as nat) =~= (if n >= 10 { old(s)@ + dec_text((n / 10) as nat) } else {
            old(s)@
        }).push((48 + n % 10) as char));
    }
}

/// The decimal digit character of a value below 10.
fn char_of_digit(d: u32) -> (r: char)
    requires
        d < 10,
    ensures
        r == (48 + d) as char,
{
    (48 + d as u8) as char
}

/// The upper-case hexadecimal digit of a value below 16.
pub open spec fn hex_digit_upper(n: int) -> char {
    if n < 10 {
        (48 + n) as char
    } else {
        (55 + n) as char
    }
}

/// The upper-case hexadecimal digits of `n`, without leading zeros.
pub open spec fn hex_upper(n: nat) -> Seq<char>
    decreases n,
{
    if n < 16 {
        seq![hex_digit_upper(n as int)]
    } else {
        hex_upper(n / 16).push(hex_digit_upper((n % 16) as int))
    }
}

/// The upper-case hexadecimal digit of a value below 16.
fn hex_char_upper(n: u8) -> (r: char)
    requires
        n < 16,
    ensures
        r == hex_digit_upper(n as int),
{
    if n < 10 {
        (48 + n) as char
    } else {
        (55 + n) as char
    }
}

/// Appends the upper-case hexadecimal digits of `n`.
pub fn push_hex_upper(s: &mut String, n: u32)
    ensures
        final(s)@ == old(s)@ + hex_upper(n as nat),
    decreases n,
{
    if n >= 16 {
        push_hex_upper(s, n / 16);
    }
    string_push(s, hex_char_upper((n % 16) as u8));
    proof {
        assert(old(s)@ + hex_upper(n as nat) =~= (if n >= 16 { old(s)@ + hex_upper((n / 16) as nat) } else {
            old(s)@
        }).push(hex_digit_upper((n % 16) as int)));
    }
}

/// Sixteen to the power `k`.
pub open spec fn pow16(k: nat) -> nat
    decreases k,
{
    if k == 0 {
        1
    } else {
        16 * pow16((k - 1) as nat)
    }
}

/// A number below sixteen to the power `k` has at most `k` hexadecimal digits.
proof fn lemma_hex_upper_len(n: nat, k: nat)
    requires
        k >= 1,
        n < pow16(k),
    ensures
        1 <= hex_upper(n).len() <= k,
    decreases n,
{
    if n >= 16 {
        assert(k >= 2) by {
            if k == 1 {
                assert(pow16(1) == 16) by {
                    reveal_with_fuel(pow16, 2);
                }
            }
        }
        assert(n / 16 < pow16((k - 1) as nat));
        lemma_hex_upper_len(n / 16, (k - 1) as nat);
    }
}

/// `n` as `0x` and at least four upper-case hexadecimal digits, padded with
/// leading zeros.
pub open spec fn hex_upper_padded4(n: nat) -> Seq<char> {
    let d = hex_upper(n);
    "0x"@ + Seq::new(if d.len() < 4 { (4 - d.len()) as nat } else { 0 }, |i: int| '0') + d
}

/// Appends `n` as `0x` and at least four upper-case hexadecimal digits.
pub fn push_hex_upper_padded4(s: &mut String, n: u32)
    ensures
        final(s)@ == old(s)@ + hex_upper_padded4(n as nat),
{
    let ghost start = s@;
    push_text(s, "0x");
    let ghost after_prefix = s@;
    let digits: usize = if n < 0x10 {
        1
    } else if n < 0x100 {
        2
    } else if n < 0x1000 {
        3
    } else {
        4
    };
    assert(digits <= 4);
    assert(n < 0x10000 ==> hex_upper(n as nat).len() == digits) by {
        reveal_with_fuel(hex_upper, 5);
    }
    assert(hex_upper(n as nat).len() >= 1) by {
        assert(pow16(8) == 0x1_0000_0000) by {
            reveal_with_fuel(pow16, 9);
        }
        lemma_hex_upper_len(n as nat, 8);
    }
    let mut k: usize = digits;
    while k < 4
        invariant
            digits <= k <= 4,
            s@ == after_prefix + Seq::new((k - digits) as nat, |i: int| '0'),
        decreases 4 - k,
    {
        string_push(s, '0');
        k = k + 1;
        assert(s@ =~= after_prefix + Seq::new((k - digits) as nat, |i: int| '0'));
    }
    push_hex_upper(s, n);
    proof {
        reveal_strlit("0x");
        let d = hex_upper(n as nat);
        let pad = if d.len() < 4 { (4 - d.len()) as nat } else { 0 };
        if n < 0x10000 {
            assert(pad == (4 - digits) as nat);
        } else {
            assert(d.len() >= 5) by {
                reveal_with_fuel(hex_upper, 5);
            }
            assert(pad == 0);
            assert(digits == 4);
        }
        assert(s@ =~= start + hex_upper_padded4(n as nat));
    }
}

/// The eight lower-case hexadecimal digits of `n`, with leading zeros.
pub open spec fn hex8_lower(n: u32) -> Seq<char> {
    Seq::new(8, |i: int| hex_digit(((n >> ((28 - 4 * i) as u32)) & 0xf) as int))
}

/// Appends the eight lower-case hexadecimal digits of `n`.
pub fn push_hex8_lower(s: &mut String, n: u32)
    ensures
        final(s)@ == old(s)@ + hex8_lower(n),
{
    let ghost start = s@;
    let mut i: u32 = 0;
    while i < 8
        invariant
            i <= 8,
            s@ == start + hex8_lower(n).subrange(0, i as int),
        decreases 8 - i,
    {
        let shift: u32 = 28 - 4 * i;
        let d = (n >> shift) & 0xf;
        assert(d < 16) by (bit_vector)
            requires
                d == (n >> shift) & 0xf,
        ;
        string_push(s, hex_char(d as u8));
        i = i + 1;
        assert(s@ =~= start + hex8_lower(n).subrange(0, i as int));
    }
    assert(hex8_lower(n).subrange(0, 8) =~= hex8_lower(n));
}

/// Names joined with ` | `.
pub open spec fn join_names(s: Seq<Seq<char>>) -> Seq<char>
    decreases s.len(),
{
    if s.len() == 0 {
        Seq::empty()
    } else if s.len() == 1 {
        s[0]
    } else {
        join_names(s.drop_last()) + " | "@ + s.last()
    }
}

/// The names of a flag table that a value shows, in table order from entry
/// `i` on, and the bits left over: an entry is named when all its bits are
/// set in `source` and one of them is still left, and its bits are then no
/// longer left; naming stops once no bit is left.
pub open spec fn flag_names(source: u32, table: Seq<(u32, Seq<char>)>, i: int, remaining: u32) -> (
    Seq<Seq<char>>,
    u32,
)
    decreases table.len() - i,
{
    if i < 0 || i >= table.len() || remaining == 0 {
        (Seq::empty(), remaining)
    } else {
        let v = table[i].0;
        if source & v == v && remaining & v != 0 {
            let rest = flag_names(source, table, i + 1, remaining & !v);
            (seq![table[i].1] + rest.0, rest.1)
        } else {
            flag_names(source, table, i + 1, remaining)
        }
    }
}

/// The text form of a flag value: `None` for no bit; else the names that it
/// shows joined with ` | `, then the bits that no name covers, as `0x` and
/// lower-case hexadecimal digits, or as `UNKNOWN` when `unknown_as_hex` is
/// false.
pub open spec fn flags_text_of(bits: u32, table: Seq<(u32, Seq<char>)>, unknown_as_hex: bool) -> Seq<char> {
    if bits == 0 {
        "None"@
    } else {
        let (names, rem) = flag_names(bits, table, 0, bits);
        let body = join_names(names);
        if rem == 0 {
            body
        } else {
            body + (if names.len() > 0 { " | "@ } else { Seq::empty() }) + (if unknown_as_hex {
                "0x"@ + hex_lower(rem as nat)
            } else {
                "UNKNOWN"@
            })
        }
    }
}

/// The flag table as plain values.
pub open spec fn flag_table_view(table: Seq<(u32, &str)>) -> Seq<(u32, Seq<char>)> {
    table.map_values(|e: (u32, &str)| (e.0, e.1@))
}

/// Joining one more name.
proof fn lemma_join_push(s: Seq<Seq<char>>, n: Seq<char>)
    ensures
        join_names(s.push(n)) == if s.len() == 0 { n } else { join_names(s) + " | "@ + n },
{
    assert(s.push(n).drop_last() =~= s);
}

/// The text form of a flag value over a table of names.
pub fn flags_text(bits: u32, table: &Vec<(u32, &str)>, unknown_as_hex: bool) -> (r: String)
    ensures
        r@ == flags_text_of(bits, flag_table_view(table@), unknown_as_hex),
{
    let ghost tv = flag_table_view(table@);
    let mut out = String::new();
    if bits == 0 {
        push_text(&mut out, "None");
        return out;
    }
    let mut remaining = bits;
    let mut first = true;
    let mut i: usize = 0;
    let ghost mut names: Seq<Seq<char>> = Seq::empty();
    while i < table.len() && remaining != 0
        invariant
            i <= table@.len(),
            tv == flag_table_view(table@),
            tv.len() == table@.len(),
            flag_names(bits, tv, 0, bits) == (names + flag_names(bits, tv, i as int, remaining).0, flag_names(
                bits,
                tv,
                i as int,
                remaining,
            ).1),
            out@ == join_names(names),
            first == (names.len() == 0),
        decreases table@.len() - i,
    {
        let (v, name) = table[i];
        assert(tv[i as int] == (v, name@));
        if bits & v == v && remaining & v != 0 {
            if !first {
                push_text(&mut out, " | ");
            }
            push_text(&mut out, name);
            proof {
                lemma_join_push(names, name@);
                let rest = flag_names(bits, tv, i + 1, remaining & !v);
                assert(names + (seq![name@] + rest.0) =~= names.push(name@) + rest.0);
                names = names.push(name@);
            }
            first = false;
            remaining = remaining & !v;
        }
        i = i + 1;
    }
    assert(flag_names(bits, tv, i as int, remaining).0 =~= Seq::<Seq<char>>::empty());
    assert(names + Seq::<Seq<char>>::empty() =~= names);
    if remaining != 0 {
        if !first {
            push_text(&mut out, " | ");
        }
        if unknown_as_hex {
            push_text(&mut out, "0x");
            push_hex_lower(&mut out, remaining);
        } else {
            push_text(&mut out, "UNKNOWN");
        }
    }
    out
}

} // verus!
