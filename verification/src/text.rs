//! Fixed-capacity terminated byte buffers, as the native library's structs
//! carry them, and decoding of such bytes into text.
//!
//! The native image and configuration structs hold their filename and
//! format tag in fixed-size byte arrays, terminated by a zero byte. This
//! module models such an array as a `Vec<u8>` of exactly the native
//! capacity, reads the value before the first terminator, and writes a new
//! value only after checking that it and its terminator fit — copying past
//! the capacity is never possible.

use vstd::prelude::*;
use vstd::utf8::{decode_utf8, valid_utf8};
use crate::err::Error;

verus! {

/// The capacity of the native fixed-size text fields, terminator included.
pub const MAX_TEXT_EXTENT: usize = 2053;

/// The index of the first terminator in `s`, or `s.len()` when `s` holds
/// none.
pub open spec fn nul_index(s: Seq<u8>) -> int
    decreases s.len(),
{
    if s.len() == 0 {
        0
    } else if s[0] == 0u8 {
        0
    } else {
        1 + nul_index(s.drop_first())
    }
}

/// The bytes of `s` before its first terminator: the value a terminated
/// fixed-capacity field holds.
pub open spec fn terminated_prefix(s: Seq<u8>) -> Seq<u8> {
    s.take(nul_index(s))
}

/// A position that is preceded by no terminator and holds one, or is the
/// end, is exactly the first terminator's position.
pub proof fn lemma_nul_index_is_first(s: Seq<u8>, i: int)
    requires
        0 <= i <= s.len(),
        forall|j: int| 0 <= j < i ==> s[j] != 0u8,
        i < s.len() ==> s[i] == 0u8,
    ensures
        nul_index(s) == i,
    decreases s.len(),
{
    if s.len() == 0 {
    } else if s[0] == 0u8 {
    } else {
        assert(forall|j: int| 0 <= j < i - 1 ==> s.drop_first()[j] == s[j + 1]);
        lemma_nul_index_is_first(s.drop_first(), i - 1);
    }
}

/// A buffer of the native capacity holding the empty value: all zero.
pub fn zero_buffer() -> (r: Vec<u8>)
    ensures
        r@.len() == MAX_TEXT_EXTENT,
        forall|j: int| 0 <= j < r@.len() ==> r@[j] == 0u8,
        terminated_prefix(r@) == Seq::<u8>::empty(),
{
    let mut out: Vec<u8> = Vec::new();
    let mut i: usize = 0;
    while i < MAX_TEXT_EXTENT
        invariant
            i <= MAX_TEXT_EXTENT,
            out@.len() == i,
            forall|j: int| 0 <= j < i ==> out@[j] == 0u8,
        decreases MAX_TEXT_EXTENT - i,
    {
        out.push(0u8);
        i = i + 1;
    }
    proof {
        lemma_nul_index_is_first(out@, 0);
        assert(out@.take(0) =~= Seq::<u8>::empty());
    }
    out
}

/// Read the value a fixed-capacity field holds: its bytes before the first
/// terminator, or the whole buffer when no terminator is present.
pub fn read_buffer(buf: &Vec<u8>) -> (r: Vec<u8>)
    ensures
        r@ == terminated_prefix(buf@),
{
    let mut out: Vec<u8> = Vec::new();
    let mut i: usize = 0;
    while i < buf.len() && buf[i] != 0u8
        invariant
            i <= buf@.len(),
            forall|j: int| 0 <= j < i ==> buf@[j] != 0u8,
            out@ == buf@.take(i as int),
        decreases buf@.len() - i,
    {
        out.push(buf[i]);
        i = i + 1;
        proof {
            assert(out@ =~= buf@.take(i as int));
        }
    }
    proof {
        lemma_nul_index_is_first(buf@, i as int);
    }
    out
}

/// Whether `s` plus a terminator fits the native capacity and holds no
/// terminator of its own — the condition under which it can be stored in a
/// fixed-capacity field.
pub open spec fn storable(s: Seq<u8>) -> bool {
    s.len() + 1 <= MAX_TEXT_EXTENT && forall|j: int| 0 <= j < s.len() ==> s[j] != 0u8
}

/// Store `s` and a terminator in the fixed-capacity buffer `buf`. When `s`
/// with its terminator does not fit the capacity, or holds a terminator
/// byte itself, the buffer is left untouched and an encoding error comes
/// back — the value is never cut short and the capacity is never crossed.
pub fn write_buffer(buf: &mut Vec<u8>, s: &[u8]) -> (r: Result<(), Error>)
    requires
        old(buf)@.len() == MAX_TEXT_EXTENT,
    ensures
        final(buf)@.len() == MAX_TEXT_EXTENT,
        match r {
            Ok(()) => storable(s@) && terminated_prefix(final(buf)@) == s@,
            Err(e) => e == Error::EncodingFailure && !storable(s@) && final(buf)@ == old(buf)@,
        },
{
    if s.len() >= MAX_TEXT_EXTENT {
        return Err(Error::EncodingFailure);
    }
    let mut i: usize = 0;
    while i < s.len()
        invariant
            i <= s@.len(),
            forall|j: int| 0 <= j < i ==> s@[j] != 0u8,
            buf@ == old(buf)@,
            buf@.len() == MAX_TEXT_EXTENT,
        decreases s@.len() - i,
    {
        if s[i] == 0u8 {
            return Err(Error::EncodingFailure);
        }
        i = i + 1;
    }
    let mut k: usize = 0;
    while k < s.len()
        invariant
            k <= s@.len(),
            s@.len() + 1 <= MAX_TEXT_EXTENT,
            buf@.len() == MAX_TEXT_EXTENT,
            forall|j: int| 0 <= j < s@.len() ==> s@[j] != 0u8,
            forall|j: int| 0 <= j < k ==> buf@[j] == s@[j],
        decreases s@.len() - k,
    {
        let b = s[k];
        buf.set(k, b);
        k = k + 1;
    }
    buf.set(s.len(), 0u8);
    proof {
        assert forall|j: int| 0 <= j < s@.len() implies buf@[j] != 0u8 by {
            assert(buf@[j] == s@[j]);
            assert(s@[j] != 0u8);
        }
        lemma_nul_index_is_first(buf@, s@.len() as int);
        assert(buf@.take(s@.len() as int) =~= s@);
    }
    Ok(())
}

/// An owned copy of a byte buffer.
pub fn copy_bytes(src: &Vec<u8>) -> (r: Vec<u8>)
    ensures
        r@ == src@,
{
    let mut out: Vec<u8> = Vec::new();
    let mut i: usize = 0;
    while i < src.len()
        invariant
            i <= src@.len(),
            out@ == src@.take(i as int),
        decreases src@.len() - i,
    {
        out.push(src[i]);
        i = i + 1;
        proof {
            assert(out@ =~= src@.take(i as int));
        }
    }
    proof {
        assert(src@.take(src@.len() as int) =~= src@);
    }
    out
}

/// Relies on `String::from_utf8`: it returns `Ok` exactly when the bytes
/// are valid UTF-8, and the string it returns then reads as the decoding
/// of those bytes.
#[verifier::external_body]
pub fn decode_text(bytes: Vec<u8>) -> (r: Result<String, Error>)
    ensures
        r is Ok <==> valid_utf8(bytes@),
        r matches Ok(s) ==> s@ == decode_utf8(bytes@),
        r matches Err(e) ==> e == Error::EncodingFailure,
{
    match String::from_utf8(bytes) {
        Ok(s) => Ok(s),
        Err(_) => Err(Error::EncodingFailure),
    }
}

} // verus!
