//! Little-endian field access over raw record bytes.
//!
//! Every persistent record is a packed, fixed-offset byte image.  The
//! helpers here append one field to a buffer being built, or read one field
//! back out of a full image, and tie both directions to the byte-level
//! specification functions of `vstd::bytes`.

use vstd::bytes::*;
use vstd::prelude::*;
use vstd::slice::slice_subrange;

verus! {

/// Appends the two little-endian bytes of `x`.
pub fn push_u16_le(out: &mut Vec<u8>, x: u16)
    ensures
        final(out)@ == old(out)@ + spec_u16_to_le_bytes(x),
{
    let mut tail = u16_to_le_bytes(x);
    out.append(&mut tail);
}

/// Appends the eight little-endian bytes of `x`.
pub fn push_u64_le(out: &mut Vec<u8>, x: u64)
    ensures
        final(out)@ == old(out)@ + spec_u64_to_le_bytes(x),
{
    let mut tail = u64_to_le_bytes(x);
    out.append(&mut tail);
}

/// Appends the sixteen little-endian bytes of `x`.
pub fn push_u128_le(out: &mut Vec<u8>, x: u128)
    ensures
        final(out)@ == old(out)@ + spec_u128_to_le_bytes(x),
{
    let mut tail = u128_to_le_bytes(x);
    out.append(&mut tail);
}

/// Appends a 32-byte address or tag verbatim.
pub fn push_bytes32(out: &mut Vec<u8>, a: &[u8; 32])
    ensures
        final(out)@ == old(out)@ + a@,
{
    let ghost base = out@;
    let mut i: usize = 0;
    while i < 32
        invariant
            i <= 32,
            out@ == base + a@.take(i as int),
        decreases 32 - i,
    {
        out.push(a[i]);
        i = i + 1;
    }
    proof {
        assert(a@.take(32) =~= a@);
    }
}

/// Reads the `u16` stored little-endian at `off`.
pub fn read_u16_le(data: &[u8], off: usize) -> (x: u16)
    requires
        off + 2 <= data@.len(),
    ensures
        x == spec_u16_from_le_bytes(data@.subrange(off as int, off as int + 2)),
{
    let _n = data.len();
    let sub = slice_subrange(data, off, off + 2);
    u16_from_le_bytes(sub)
}

/// Reads the `u64` stored little-endian at `off`.
pub fn read_u64_le(data: &[u8], off: usize) -> (x: u64)
    requires
        off + 8 <= data@.len(),
    ensures
        x == spec_u64_from_le_bytes(data@.subrange(off as int, off as int + 8)),
{
    let _n = data.len();
    let sub = slice_subrange(data, off, off + 8);
    u64_from_le_bytes(sub)
}

/// Reads the `u128` stored little-endian at `off`.
pub fn read_u128_le(data: &[u8], off: usize) -> (x: u128)
    requires
        off + 16 <= data@.len(),
    ensures
        x == spec_u128_from_le_bytes(data@.subrange(off as int, off as int + 16)),
{
    let _n = data.len();
    let sub = slice_subrange(data, off, off + 16);
    u128_from_le_bytes(sub)
}

/// Reads the 32-byte field stored at `off`.
pub fn read_bytes32(data: &[u8], off: usize) -> (a: [u8; 32])
    requires
        off + 32 <= data@.len(),
    ensures
        a@ == data@.subrange(off as int, off as int + 32),
{
    let n = data.len();
    let mut a: [u8; 32] = [0u8; 32];
    let mut i: usize = 0;
    while i < 32
        invariant
            i <= 32,
            n == data@.len(),
            off + 32 <= n,
            a@.len() == 32,
            forall|j: int| 0 <= j < i ==> a@[j] == data@[off + j],
        decreases 32 - i,
    {
        a[i] = *vstd::slice::slice_index_get(data, off + i);
        i = i + 1;
    }
    proof {
        assert(a@ =~= data@.subrange(off as int, off as int + 32));
    }
    a
}

/// Compares two 32-byte addresses for equality.
pub fn keys_equal(a: &[u8; 32], b: &[u8; 32]) -> (r: bool)
    ensures
        r == (a@ == b@),
{
    let mut i: usize = 0;
    while i < 32
        invariant
            i <= 32,
            forall|j: int| 0 <= j < i ==> a@[j] == b@[j],
        decreases 32 - i,
    {
        if a[i] != b[i] {
            proof {
                assert(a@[i as int] != b@[i as int]);
            }
            return false;
        }
        i = i + 1;
    }
    proof {
        assert(a@ =~= b@);
    }
    true
}

} // verus!
