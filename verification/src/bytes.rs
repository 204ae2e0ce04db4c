//! Little-endian fields at fixed offsets of a byte buffer.

use vstd::prelude::*;

verus! {

/// The unsigned 32-bit number stored little-endian at `off`.
pub open spec fn le_u32_spec(s: Seq<u8>, off: int) -> int {
    s[off] + s[off + 1] * 0x100 + s[off + 2] * 0x1_0000 + s[off + 3] * 0x100_0000
}

/// The unsigned 64-bit number stored little-endian at `off`.
pub open spec fn le_u64_spec(s: Seq<u8>, off: int) -> int {
    le_u32_spec(s, off) + le_u32_spec(s, off + 4) * 0x1_0000_0000
}

/// The two's-complement reading of a 32-bit pattern.
pub open spec fn as_signed32(bits: int) -> int {
    if bits >= 0x8000_0000 {
        bits - 0x1_0000_0000
    } else {
        bits
    }
}

/// The two's-complement reading of a 64-bit pattern.
pub open spec fn as_signed64(bits: int) -> int {
    if bits >= 0x8000_0000_0000_0000 {
        bits - 0x1_0000_0000_0000_0000
    } else {
        bits
    }
}

/// Whether every byte is zero.
pub open spec fn all_zero(s: Seq<u8>) -> bool {
    forall|i: int| 0 <= i < s.len() ==> s[i] == 0
}

/// Reads the unsigned 32-bit number stored little-endian at `off`.
pub fn read_u32(data: &[u8], off: usize) -> (r: u32)
    requires
        off + 4 <= data.len(),
    ensures
        r == le_u32_spec(data@, off as int),
{
    let b0: u32 = data[off] as u32;
    let b1: u32 = data[off + 1] as u32;
    let b2: u32 = data[off + 2] as u32;
    let b3: u32 = data[off + 3] as u32;
    b0 + b1 * 0x100 + b2 * 0x1_0000 + b3 * 0x100_0000
}

/// Reads the unsigned 64-bit number stored little-endian at `off`.
pub fn read_u64(data: &[u8], off: usize) -> (r: u64)
    requires
        off + 8 <= data.len(),
    ensures
        r == le_u64_spec(data@, off as int),
{
    let lo: u64 = read_u32(data, off) as u64;
    let hi: u64 = read_u32(data, off + 4) as u64;
    lo + hi * 0x1_0000_0000
}

/// Copies the `N` bytes that start at `off`.
pub fn read_array<const N: usize>(data: &[u8], off: usize) -> (r: [u8; N])
    requires
        off + N <= data.len(),
    ensures
        r@ == data@.subrange(off as int, off + N),
{
    let mut r = [0u8; N];
    let mut i: usize = 0;
    while i < N
        invariant
            i <= N,
            off + N <= data.len(),
            forall|k: int| 0 <= k < i ==> r[k] == data[off + k],
        decreases N - i,
    {
        r[i] = data[off + i];
        i = i + 1;
    }
    r
}

/// Whether `after` differs from `before` at most in the `len` bytes
/// from `off`.
pub open spec fn same_outside(before: Seq<u8>, after: Seq<u8>, off: int, len: int) -> bool {
    &&& after.len() == before.len()
    &&& forall|i: int| 0 <= i < before.len() && !(off <= i < off + len) ==> after[i] == before[i]
}

/// Writes `v` little-endian into the four bytes from `off`.
pub fn write_u32(buf: &mut Vec<u8>, off: usize, v: u32)
    requires
        off + 4 <= old(buf).len(),
    ensures
        same_outside(old(buf)@, final(buf)@, off as int, 4),
        le_u32_spec(final(buf)@, off as int) == v,
{
    buf[off] = (v % 0x100) as u8;
    buf[off + 1] = (v / 0x100 % 0x100) as u8;
    buf[off + 2] = (v / 0x1_0000 % 0x100) as u8;
    buf[off + 3] = (v / 0x100_0000) as u8;
}

/// Writes `v` little-endian into the eight bytes from `off`.
pub fn write_u64(buf: &mut Vec<u8>, off: usize, v: u64)
    requires
        off + 8 <= old(buf).len(),
    ensures
        same_outside(old(buf)@, final(buf)@, off as int, 8),
        le_u64_spec(final(buf)@, off as int) == v,
{
    write_u32(buf, off, (v % 0x1_0000_0000) as u32);
    write_u32(buf, off + 4, (v / 0x1_0000_0000) as u32);
}

/// Copies the `N` bytes of `a` into the buffer from `off`.
pub fn write_array<const N: usize>(buf: &mut Vec<u8>, off: usize, a: &[u8; N])
    requires
        off + N <= old(buf).len(),
    ensures
        same_outside(old(buf)@, final(buf)@, off as int, N as int),
        final(buf)@.subrange(off as int, off + N) == a@,
{
    let mut i: usize = 0;
    while i < N
        invariant
            i <= N,
            off + N <= buf.len(),
            buf.len() == old(buf).len(),
            forall|k: int| 0 <= k < buf.len() && !(off <= k < off + i) ==> buf[k] == old(buf)[k],
            forall|k: int| 0 <= k < i ==> buf[off + k] == a[k],
        decreases N - i,
    {
        buf[off + i] = a[i];
        i = i + 1;
    }
    assert(buf@.subrange(off as int, off + N) =~= a@);
}

} // verus!
