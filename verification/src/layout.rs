use vstd::prelude::*;

verus! {

/// The little-endian 16-bit number stored at `off` in `s`.
pub open spec fn le_u16(s: Seq<u8>, off: int) -> int {
    s[off] + 256 * s[off + 1]
}

/// The little-endian 32-bit number stored at `off` in `s`.
pub open spec fn le_u32(s: Seq<u8>, off: int) -> int {
    le_u16(s, off) + 65536 * le_u16(s, off + 2)
}

/// The little-endian 64-bit number stored at `off` in `s`.
pub open spec fn le_u64(s: Seq<u8>, off: int) -> int {
    le_u32(s, off) + 4294967296 * le_u32(s, off + 4)
}

/// The number that the `n` bytes starting at `off` in `s` denote when the
/// first byte counts least: byte `off + k` weighs `256` to the power `k`.
pub open spec fn le_value(s: Seq<u8>, off: int, n: nat) -> int
    decreases n,
{
    if n == 0 {
        0
    } else {
        s[off] + 256 * le_value(s, off + 1, (n - 1) as nat)
    }
}

/// The 16-, 32- and 64-bit readings are the values of their two, four and
/// eight bytes: every byte counts, none is dropped.
pub proof fn lemma_le_readings_are_byte_values(s: Seq<u8>, off: int)
    ensures
        le_u16(s, off) == le_value(s, off, 2),
        le_u32(s, off) == le_value(s, off, 4),
        le_u64(s, off) == le_value(s, off, 8),
{
    reveal_with_fuel(le_value, 9);
}

/// Reads the little-endian `u16` at `off`.
pub fn read_u16(data: &[u8], off: usize) -> (v: u16)
    requires
        off + 2 <= data.len(),
    ensures
        v == le_u16(data@, off as int),
{
    data[off] as u16 + 256 * (data[off + 1] as u16)
}

/// Reads the little-endian `u32` at `off`.
pub fn read_u32(data: &[u8], off: usize) -> (v: u32)
    requires
        off + 4 <= data.len(),
    ensures
        v == le_u32(data@, off as int),
{
    let lo: u16 = read_u16(data, off);
    let hi: u16 = read_u16(data, off + 2);
    lo as u32 + 65536 * (hi as u32)
}

/// Reads the little-endian `u64` at `off`.
pub fn read_u64(data: &[u8], off: usize) -> (v: u64)
    requires
        off + 8 <= data.len(),
    ensures
        v == le_u64(data@, off as int),
{
    let lo: u32 = read_u32(data, off);
    let hi: u32 = read_u32(data, off + 4);
    lo as u64 + 4294967296 * (hi as u64)
}

/// Copies the `N` bytes that start at `off` into an array.
pub fn read_array<const N: usize>(data: &[u8], off: usize) -> (a: [u8; N])
    requires
        off + N <= data.len(),
    ensures
        a@ == data@.subrange(off as int, off + N),
{
    let mut a: [u8; N] = [0u8; N];
    let mut i: usize = 0;
    while i < N
        invariant
            i <= N,
            off + N <= data.len(),
            forall|j: int| 0 <= j < i ==> a@[j] == data@[off + j],
        decreases N - i,
    {
        a[i] = data[off + i];
        i = i + 1;
    }
    assert(a@ =~= data@.subrange(off as int, off + N));
    a
}

} // verus!
