//! The byte layout shared by requests and records: fixed-size identities and
//! fingerprints as raw bytes, integers as eight little-endian bytes.

use vstd::bytes::{
    lemma_auto_spec_u64_to_from_le_bytes, spec_u64_from_le_bytes, spec_u64_to_le_bytes,
    u64_from_le_bytes, u64_to_le_bytes,
};
use vstd::prelude::*;
use vstd::slice::slice_subrange;

verus! {

/// The length of an identity and of a fingerprint, in bytes.
pub const FILE_HASH_SIZE: usize = 32;

/// The two's-complement bit pattern of a signed timestamp.
pub open spec fn i64_bits(x: i64) -> u64 {
    if x >= 0 {
        x as u64
    } else {
        (x + 0x1_0000_0000_0000_0000) as u64
    }
}

/// The signed timestamp that a bit pattern stands for.
pub open spec fn bits_i64(u: u64) -> i64 {
    if u <= 0x7fff_ffff_ffff_ffff {
        u as i64
    } else {
        (u - 0x1_0000_0000_0000_0000) as i64
    }
}

/// The eight bytes of an unsigned counter.
pub open spec fn u64_bytes(x: u64) -> Seq<u8> {
    spec_u64_to_le_bytes(x)
}

/// The eight bytes of a signed timestamp.
pub open spec fn i64_bytes(x: i64) -> Seq<u8> {
    spec_u64_to_le_bytes(i64_bits(x))
}

/// The counter that eight bytes hold.
pub open spec fn bytes_u64(s: Seq<u8>) -> u64 {
    spec_u64_from_le_bytes(s)
}

/// The timestamp that eight bytes hold.
pub open spec fn bytes_i64(s: Seq<u8>) -> i64 {
    bits_i64(spec_u64_from_le_bytes(s))
}

/// `data` with its leading bytes replaced by `bytes`, the rest kept.
pub open spec fn overwritten(data: Seq<u8>, bytes: Seq<u8>) -> Seq<u8> {
    bytes + data.skip(bytes.len() as int)
}

/// A timestamp and its bit pattern determine each other.
pub proof fn lemma_bits_roundtrip(x: i64, u: u64)
    ensures
        bits_i64(i64_bits(x)) == x,
        i64_bits(bits_i64(u)) == u,
{
}

/// Integers and their eight bytes determine each other.
pub proof fn lemma_word_roundtrip(x: u64, t: i64, s: Seq<u8>)
    ensures
        u64_bytes(x).len() == 8,
        i64_bytes(t).len() == 8,
        bytes_u64(u64_bytes(x)) == x,
        bytes_i64(i64_bytes(t)) == t,
        s.len() == 8 ==> u64_bytes(bytes_u64(s)) == s,
        s.len() == 8 ==> i64_bytes(bytes_i64(s)) == s,
{
    lemma_auto_spec_u64_to_from_le_bytes();
    lemma_bits_roundtrip(t, spec_u64_from_le_bytes(s));
}

/// Overwriting the leading bytes keeps the length, puts the new bytes first
/// and leaves what follows them as it was.
pub proof fn lemma_overwritten(data: Seq<u8>, bytes: Seq<u8>)
    requires
        bytes.len() <= data.len(),
    ensures
        overwritten(data, bytes).len() == data.len(),
        overwritten(data, bytes).subrange(0, bytes.len() as int) == bytes,
        overwritten(data, bytes).skip(bytes.len() as int) == data.skip(bytes.len() as int),
        forall|other: Seq<u8>|
            other.len() == bytes.len() ==> #[trigger] overwritten(overwritten(data, bytes), other)
                == overwritten(data, other),
{
    let w = overwritten(data, bytes);
    assert(w.subrange(0, bytes.len() as int) =~= bytes);
    assert(w.skip(bytes.len() as int) =~= data.skip(bytes.len() as int));
    assert forall|other: Seq<u8>| other.len() == bytes.len() implies #[trigger] overwritten(
        w,
        other,
    ) == overwritten(data, other) by {
        assert(overwritten(w, other) =~= overwritten(data, other));
    }
}

/// The bit pattern of a timestamp.
pub fn timestamp_bits(x: i64) -> (u: u64)
    ensures
        u == i64_bits(x),
{
    if x >= 0 {
        x as u64
    } else {
        let below: i64 = -(x + 1);
        u64::MAX - (below as u64)
    }
}

/// The timestamp of a bit pattern.
pub fn bits_timestamp(u: u64) -> (x: i64)
    ensures
        x == bits_i64(u),
{
    if u <= 0x7fff_ffff_ffff_ffff {
        u as i64
    } else {
        let below: u64 = u64::MAX - u;
        -(below as i64) - 1
    }
}

/// Whether two identities, or two fingerprints, are the same bytes.
pub fn same_bytes(a: &[u8; 32], b: &[u8; 32]) -> (r: bool)
    ensures
        r == (a@ == b@),
        r == (*a == *b),
{
    let mut i: usize = 0;
    while i < FILE_HASH_SIZE
        invariant
            i <= 32,
            forall|j: int| 0 <= j < i ==> a@[j] == b@[j],
        decreases 32 - i,
    {
        if a[i] != b[i] {
            return false;
        }
        i += 1;
    }
    assert(a@ =~= b@);
    assert(*a =~= *b);
    true
}

/// The 32 bytes of `data` that start at `at`.
pub fn read_array(data: &[u8], at: usize) -> (r: [u8; 32])
    requires
        at + 32 <= data.len(),
    ensures
        r@ == data@.subrange(at as int, at + 32),
{
    let mut out: [u8; 32] = [0u8; 32];
    let mut i: usize = 0;
    while i < FILE_HASH_SIZE
        invariant
            i <= 32,
            at + 32 <= data.len(),
            forall|j: int| 0 <= j < i ==> out@[j] == data@[at + j],
        decreases 32 - i,
    {
        out[i] = data[at + i];
        i += 1;
    }
    assert(out@ =~= data@.subrange(at as int, at + 32));
    out
}

/// The counter in the 8 bytes of `data` that start at `at`.
pub fn read_u64(data: &[u8], at: usize) -> (r: u64)
    requires
        at + 8 <= data.len(),
    ensures
        r == bytes_u64(data@.subrange(at as int, at + 8)),
{
    let end = at + 8;
    u64_from_le_bytes(slice_subrange(data, at, end))
}

/// The timestamp in the 8 bytes of `data` that start at `at`.
pub fn read_i64(data: &[u8], at: usize) -> (r: i64)
    requires
        at + 8 <= data.len(),
    ensures
        r == bytes_i64(data@.subrange(at as int, at + 8)),
{
    let end = at + 8;
    bits_timestamp(u64_from_le_bytes(slice_subrange(data, at, end)))
}

/// Appends the bytes of an identity or fingerprint.
pub fn push_array(out: &mut Vec<u8>, bytes: &[u8; 32])
    ensures
        final(out)@ == old(out)@ + bytes@,
{
    let mut i: usize = 0;
    while i < FILE_HASH_SIZE
        invariant
            i <= 32,
            out@ == old(out)@ + bytes@.subrange(0, i as int),
        decreases 32 - i,
    {
        out.push(bytes[i]);
        i += 1;
        assert(out@ =~= old(out)@ + bytes@.subrange(0, i as int));
    }
    assert(bytes@.subrange(0, 32) =~= bytes@);
}

/// Appends the eight bytes of a counter.
pub fn push_u64(out: &mut Vec<u8>, x: u64)
    ensures
        final(out)@ == old(out)@ + u64_bytes(x),
{
    let word = u64_to_le_bytes(x);
    let mut i: usize = 0;
    while i < 8
        invariant
            i <= 8,
            word@.len() == 8,
            out@ == old(out)@ + word@.subrange(0, i as int),
        decreases 8 - i,
    {
        out.push(word[i]);
        i += 1;
        assert(out@ =~= old(out)@ + word@.subrange(0, i as int));
    }
    assert(word@.subrange(0, 8) =~= word@);
}

/// Replaces the leading bytes of `data` by `bytes` and keeps the rest.
pub fn write_prefix(data: &mut Vec<u8>, bytes: &Vec<u8>)
    requires
        bytes@.len() <= old(data)@.len(),
    ensures
        final(data)@ == overwritten(old(data)@, bytes@),
{
    let n = bytes.len();
    let mut i: usize = 0;
    while i < n
        invariant
            i <= n,
            n == bytes@.len(),
            data@.len() == old(data)@.len(),
            n <= data@.len(),
            forall|j: int| 0 <= j < i ==> data@[j] == bytes@[j],
            forall|j: int| i <= j < data@.len() ==> data@[j] == old(data)@[j],
        decreases n - i,
    {
        data[i] = bytes[i];
        i += 1;
    }
    assert(data@ =~= overwritten(old(data)@, bytes@));
}

} // verus!
