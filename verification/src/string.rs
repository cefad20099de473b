//! Fixed-size, NUL-terminated PLC strings in the Windows-1252 code page.

use vstd::prelude::*;
use crate::codepage::{
    cp1252_byte, cp1252_decode, cp1252_encodable, cp1252_encode, decode_windows_1252, encode_windows_1252, starts_with_bom,
    string_of_char, windows_1252_decoded, windows_1252_encoded, lemma_cp1252_roundtrip,
};
use crate::error::AdsStringError;

verus! {

/// True when `p` is the position of the first NUL byte of `s`, or the length
/// of `s` when it holds none.
pub open spec fn is_nul_pos(s: Seq<u8>, p: int) -> bool {
    &&& 0 <= p <= s.len()
    &&& (p < s.len() ==> s[p] == 0)
    &&& forall|j: int| 0 <= j < p ==> s[j] != 0
}

/// The position of the first NUL byte of `s`, or its length when it holds none.
pub open spec fn nul_pos(s: Seq<u8>) -> int {
    choose|p: int| is_nul_pos(s, p)
}

/// The text of a buffer: the bytes before the first NUL.
pub open spec fn nul_content(s: Seq<u8>) -> Seq<u8> {
    s.subrange(0, nul_pos(s))
}

/// The first-NUL position is unique, and `nul_pos` is it.
pub proof fn lemma_nul_pos(s: Seq<u8>, p: int)
    requires
        is_nul_pos(s, p),
    ensures
        nul_pos(s) == p,
{
    let q = nul_pos(s);
    assert(is_nul_pos(s, q));
    if q < p {
        assert(s[q] != 0);
    } else if p < q {
        assert(s[p] != 0);
    }
}

/// The position of the first NUL byte of an array.
fn first_nul<const N: usize>(a: &[u8; N]) -> (r: usize)
    ensures
        is_nul_pos(a@, r as int),
        r == nul_pos(a@),
{
    let mut i: usize = 0;
    while i < N
        invariant
            0 <= i <= N,
            a@.len() == N,
            forall|j: int| 0 <= j < i ==> a@[j] != 0,
        decreases N - i,
    {
        if a[i] == 0 {
            proof {
                lemma_nul_pos(a@, i as int);
            }
            return i;
        }
        i = i + 1;
    }
    proof {
        lemma_nul_pos(a@, i as int);
    }
    i
}

/// A fixed-size PLC string of `N` bytes, NUL included: `STRING(K)` in the
/// PLC is `AdsString<{K + 1}>`. The bytes are Windows-1252.
#[derive(Clone, Copy, PartialEq, Eq, PartialOrd, Ord, Hash)]
pub struct AdsString<const N: usize>([u8; N]);

impl<const N: usize> AdsString<N> {
    /// The whole buffer.
    pub closed spec fn spec_bytes(self) -> Seq<u8> {
        self.0@
    }

    /// The text: the bytes before the first NUL.
    pub open spec fn spec_content(self) -> Seq<u8> {
        nul_content(self.spec_bytes())
    }

    /// The length of the text.
    pub open spec fn spec_len(self) -> int {
        nul_pos(self.spec_bytes())
    }

    /// The buffer has `N` bytes.
    pub proof fn lemma_len(self)
        ensures
            self.spec_bytes().len() == N,
    {
    }

    /// Creates an empty string (all zeros).
    pub fn new() -> (r: AdsString<N>)
        ensures
            r.spec_bytes() == Seq::new(N as nat, |i: int| 0u8),
    {
        let r = AdsString([0u8; N]);
        assert(r.spec_bytes() =~= Seq::new(N as nat, |i: int| 0u8));
        r
    }

    /// Creates a string holding the given buffer.
    pub fn from_array(bytes: [u8; N]) -> (r: AdsString<N>)
        ensures
            r.spec_bytes() == bytes@,
    {
        AdsString(bytes)
    }

    /// The whole buffer (Windows-1252).
    pub fn as_bytes(&self) -> (r: &[u8])
        ensures
            r@ == self.spec_bytes(),
    {
        self.0.as_slice()
    }

    /// The bytes before the first NUL.
    pub fn as_bytes_until_nul(&self) -> (r: &[u8])
        ensures
            r@ == self.spec_content(),
    {
        let end = first_nul(&self.0);
        let s = self.0.as_slice();
        &s[0..end]
    }

    /// The bytes before the first NUL, as an iterator.
    pub fn bytes(&self) -> (r: std::slice::Iter<'_, u8>)
        ensures
            vstd::std_specs::iter::IteratorSpec::remaining(&r) == self.spec_content().map_values(|b: u8| &b),
    {
        let s = self.as_bytes_until_nul();
        let it = s.iter();
        proof {
            vstd::std_specs::slice::axiom_spec_slice_iter(s);
            assert(self.spec_content().map_values(|b: u8| &b) =~= s@.as_ref());
        }
        it
    }

    /// The text decoded from Windows-1252 into a Rust string.
    pub fn as_str(&self) -> (r: String)
        ensures
            r@ == windows_1252_decoded(self.spec_content()),
            !starts_with_bom(self.spec_content()) ==> r@ == cp1252_decode(self.spec_content()),
    {
        decode_windows_1252(self.as_bytes_until_nul())
    }

    /// The length of the text, in bytes.
    pub fn len(&self) -> (r: usize)
        ensures
            r == self.spec_len(),
            r <= N,
    {
        first_nul(&self.0)
    }

    /// True when the text is empty.
    pub fn is_empty(&self) -> (r: bool)
        ensures
            r == (self.spec_len() == 0),
    {
        self.len() == 0
    }

    /// The size of the buffer, `N`.
    pub fn capacity(&self) -> (r: usize)
        ensures
            r == N,
    {
        N
    }

    /// Appends already encoded bytes after the text and a NUL after them.
    fn append_encoded(&mut self, encoded: &Vec<u8>, current_len: usize)
        requires
            current_len == old(self).spec_len(),
            current_len + encoded@.len() < N,
        ensures
            final(self).spec_bytes() == old(self).spec_bytes().subrange(0, current_len as int) + encoded@ + seq![0u8]
                + old(self).spec_bytes().subrange(current_len + encoded@.len() + 1, N as int),
    {
        let ghost old_bytes = self.0@;
        let mut i: usize = 0;
        while i < encoded.len()
            invariant
                0 <= i <= encoded@.len(),
                current_len + encoded@.len() < N,
                self.0@.len() == N,
                old_bytes.len() == N,
                forall|j: int| 0 <= j < current_len ==> self.0@[j] == old_bytes[j],
                forall|j: int| 0 <= j < i ==> self.0@[current_len + j] == encoded@[j],
                forall|j: int| current_len + i <= j < N ==> self.0@[j] == old_bytes[j],
            decreases encoded@.len() - i,
        {
            self.0[current_len + i] = encoded[i];
            i = i + 1;
        }
        self.0[current_len + encoded.len()] = 0;
        assert(self.0@ =~= old_bytes.subrange(0, current_len as int) + encoded@ + seq![0u8]
            + old_bytes.subrange(current_len + encoded@.len() + 1, N as int));
    }

    /// Appends a string, encoded as Windows-1252, and a NUL after it.
    ///
    /// Fails when a character has no Windows-1252 byte, or when the encoded
    /// text does not fit before the last byte of the buffer.
    pub fn push_str(&mut self, s: &str) -> (r: Result<(), AdsStringError>)
        requires
            old(self).spec_len() < N,
        ensures
            !cp1252_encodable(s@) ==> r == Err::<(), AdsStringError>(AdsStringError::EncodingError)
                && *final(self) == *old(self),
            cp1252_encodable(s@) && old(self).spec_len() + s@.len() > N - 1 ==> r == Err::<(), AdsStringError>(
                AdsStringError::TooLong { expected: (N - 1 - old(self).spec_len()) as usize, got: s@.len() as usize },
            ) && *final(self) == *old(self),
            cp1252_encodable(s@) && old(self).spec_len() + s@.len() <= N - 1 ==> r == Ok::<(), AdsStringError>(())
                && final(self).spec_bytes() == old(self).spec_bytes().subrange(0, old(self).spec_len())
                + cp1252_encode(s@) + seq![0u8] + old(self).spec_bytes().subrange(
                old(self).spec_len() + s@.len() + 1,
                N as int,
            ),
    {
        let (encoded, has_errors) = encode_windows_1252(s);
        if has_errors {
            return Err(AdsStringError::EncodingError);
        }
        let current_len = self.len();
        let available = N - 1 - current_len;
        if encoded.len() > available {
            return Err(AdsStringError::TooLong { expected: available, got: encoded.len() });
        }
        self.append_encoded(&encoded, current_len);
        Ok(())
    }

    /// Appends one character, encoded as Windows-1252.
    pub fn push(&mut self, c: char) -> (r: Result<(), AdsStringError>)
        requires
            old(self).spec_len() < N,
        ensures
            !cp1252_encodable(seq![c]) ==> r == Err::<(), AdsStringError>(AdsStringError::EncodingError)
                && *final(self) == *old(self),
            cp1252_encodable(seq![c]) && old(self).spec_len() + 1 > N - 1 ==> r == Err::<(), AdsStringError>(
                AdsStringError::TooLong { expected: (N - 1 - old(self).spec_len()) as usize, got: 1 },
            ) && *final(self) == *old(self),
            cp1252_encodable(seq![c]) && old(self).spec_len() + 1 <= N - 1 ==> r == Ok::<(), AdsStringError>(())
                && final(self).spec_bytes() == old(self).spec_bytes().subrange(0, old(self).spec_len())
                + cp1252_encode(seq![c]) + seq![0u8] + old(self).spec_bytes().subrange(
                old(self).spec_len() + 2,
                N as int,
            ),
    {
        let s = string_of_char(c);
        self.push_str(s.as_str())
    }

    /// Cuts the text to `new_len` bytes; does nothing when it is not shorter.
    pub fn truncate(&mut self, new_len: usize)
        ensures
            new_len < old(self).spec_len() ==> final(self).spec_bytes() == old(self).spec_bytes().update(new_len as int, 0u8),
            new_len >= old(self).spec_len() ==> *final(self) == *old(self),
    {
        if new_len < self.len() {
            self.0[new_len] = 0;
        }
    }

    /// Empties the text.
    pub fn clear(&mut self)
        requires
            N > 0,
        ensures
            final(self).spec_bytes() == old(self).spec_bytes().update(0, 0u8),
    {
        self.0[0] = 0;
    }

    /// The byte at `index` of the buffer.
    pub fn index(&self, index: usize) -> (r: &u8)
        requires
            index < N,
        ensures
            *r == self.spec_bytes()[index as int],
    {
        &self.0[index]
    }

    /// The byte at `index` of the buffer, for writing.
    pub fn index_mut(&mut self, index: usize) -> (r: &mut u8)
        requires
            index < N,
        ensures
            *r == old(self).spec_bytes()[index as int],
            final(self).spec_bytes() == old(self).spec_bytes().update(index as int, *final(r)),
    {
        &mut self.0[index]
    }
}

impl<const N: usize> core::default::Default for AdsString<N> {
    fn default() -> (r: AdsString<N>)
        ensures
            r.spec_bytes() == Seq::new(N as nat, |i: int| 0u8),
    {
        AdsString::new()
    }
}

impl<const N: usize> core::convert::From<[u8; N]> for AdsString<N> {
    fn from(bytes: [u8; N]) -> (r: AdsString<N>)
        ensures
            r.spec_bytes() == bytes@,
    {
        AdsString(bytes)
    }
}

impl<const N: usize> vstd::std_specs::convert::FromSpecImpl<[u8; N]> for AdsString<N> {
    open spec fn obeys_from_spec() -> bool {
        true
    }

    closed spec fn from_spec(bytes: [u8; N]) -> AdsString<N> {
        AdsString(bytes)
    }
}

/// The longest text that a buffer of `n` bytes holds: one byte is kept for the
/// NUL (a buffer of no bytes holds none).
pub open spec fn spec_max_text_len(n: usize) -> usize {
    if n == 0 { 0 } else { (n - 1) as usize }
}

/// The buffer that holds an encoded text followed by zeros.
pub open spec fn padded_buffer(e: Seq<u8>, n: nat) -> Seq<u8> {
    e + Seq::new((n - e.len()) as nat, |i: int| 0u8)
}

impl<const N: usize> AdsString<N> {
    /// Creates a string from a Rust string, encoded as Windows-1252 and
    /// followed by zeros.
    ///
    /// Fails when a character has no Windows-1252 byte, or when the encoded
    /// text leaves no room for the NUL.
    pub fn try_from_str(value: &str) -> (r: Result<AdsString<N>, AdsStringError>)
        ensures
            !cp1252_encodable(value@) ==> r == Err::<AdsString<N>, AdsStringError>(AdsStringError::EncodingError),
            cp1252_encodable(value@) && value@.len() >= N ==> r == Err::<AdsString<N>, AdsStringError>(
                AdsStringError::TooLong { expected: spec_max_text_len(N), got: value@.len() as usize },
            ),
            cp1252_encodable(value@) && value@.len() < N ==> (r matches Ok(a) && a.spec_bytes() == padded_buffer(
                cp1252_encode(value@),
                N as nat,
            )),
    {
        let (encoded, has_errors) = encode_windows_1252(value);
        if has_errors {
            return Err(AdsStringError::EncodingError);
        }
        if encoded.len() >= N {
            let expected = if N == 0 { 0 } else { N - 1 };
            return Err(AdsStringError::TooLong { expected, got: encoded.len() });
        }
        let mut buf = [0u8; N];
        let mut i: usize = 0;
        while i < encoded.len()
            invariant
                0 <= i <= encoded@.len(),
                encoded@.len() < N,
                buf@.len() == N,
                forall|j: int| 0 <= j < i ==> buf@[j] == encoded@[j],
                forall|j: int| i <= j < N ==> buf@[j] == 0,
            decreases encoded@.len() - i,
        {
            buf[i] = encoded[i];
            i = i + 1;
        }
        assert(buf@ =~= padded_buffer(encoded@, N as nat));
        Ok(AdsString(buf))
    }
}

impl<'a, const N: usize> core::convert::TryFrom<&'a str> for AdsString<N> {
    type Error = AdsStringError;

    fn try_from(value: &'a str) -> (r: Result<AdsString<N>, AdsStringError>)
        ensures
            !cp1252_encodable(value@) ==> r == Err::<AdsString<N>, AdsStringError>(AdsStringError::EncodingError),
            cp1252_encodable(value@) && value@.len() >= N ==> r == Err::<AdsString<N>, AdsStringError>(
                AdsStringError::TooLong { expected: spec_max_text_len(N), got: value@.len() as usize },
            ),
            cp1252_encodable(value@) && value@.len() < N ==> (r matches Ok(a) && a.spec_bytes() == padded_buffer(
                cp1252_encode(value@),
                N as nat,
            )),
    {
        let r = AdsString::try_from_str(value);
        proof {
            if let Ok(a) = r {
                let c = choose|c: [u8; N]| c@ == padded_buffer(cp1252_encode(value@), N as nat);
                assert(a.0 =~= c);
            }
        }
        r
    }
}

impl<'a, const N: usize> vstd::std_specs::convert::TryFromSpecImpl<&'a str> for AdsString<N> {
    open spec fn obeys_try_from_spec() -> bool {
        true
    }

    closed spec fn try_from_spec(value: &'a str) -> Result<AdsString<N>, AdsStringError> {
        if !cp1252_encodable(value@) {
            Err(AdsStringError::EncodingError)
        } else if value@.len() >= N {
            Err(AdsStringError::TooLong { expected: spec_max_text_len(N), got: value@.len() as usize })
        } else {
            Ok(AdsString(choose|a: [u8; N]| a@ == padded_buffer(cp1252_encode(value@), N as nat)))
        }
    }
}

/// A text without NUL characters, encodable, shorter than the buffer and not
/// starting with a byte-order mark reads back unchanged after being stored.
pub proof fn lemma_string_roundtrip<const N: usize>(value: Seq<char>, a: AdsString<N>)
    requires
        cp1252_encodable(value),
        value.len() < N,
        forall|i: int| 0 <= i < value.len() ==> value[i] as u32 != 0,
        !starts_with_bom(cp1252_encode(value)),
        a.spec_bytes() == padded_buffer(cp1252_encode(value), N as nat),
    ensures
        a.spec_content() == cp1252_encode(value),
        cp1252_decode(a.spec_content()) == value,
{
    let e = cp1252_encode(value);
    assert forall|i: int| 0 <= i < e.len() implies e[i] != 0 by {
        let c = value[i];
        assert(cp1252_byte(c) is Some);
        if (c as u32) < 0x100 {
            assert((c as u32) as u8 == c as u32);
        }
    }
    assert(is_nul_pos(a.spec_bytes(), e.len() as int));
    lemma_nul_pos(a.spec_bytes(), e.len() as int);
    assert(a.spec_content() =~= e);
    lemma_cp1252_roundtrip(value);
}

} // verus!
