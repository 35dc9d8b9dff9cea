use vstd::prelude::*;

verus! {

/// The unsigned value of the eight bytes of `data` that start at `off`,
/// least significant byte first.
pub open spec fn le_u64_at(data: Seq<u8>, off: int) -> int {
    data[off] as int
        + data[off + 1] as int * 0x100
        + data[off + 2] as int * 0x1_0000
        + data[off + 3] as int * 0x100_0000
        + data[off + 4] as int * 0x1_0000_0000
        + data[off + 5] as int * 0x100_0000_0000
        + data[off + 6] as int * 0x1_0000_0000_0000
        + data[off + 7] as int * 0x100_0000_0000_0000
}

/// The eight bytes of `x`, least significant first.
pub open spec fn le_bytes(x: u64) -> Seq<u8> {
    seq![
        (x % 0x100) as u8,
        ((x / 0x100) % 0x100) as u8,
        ((x / 0x1_0000) % 0x100) as u8,
        ((x / 0x100_0000) % 0x100) as u8,
        ((x / 0x1_0000_0000) % 0x100) as u8,
        ((x / 0x100_0000_0000) % 0x100) as u8,
        ((x / 0x1_0000_0000_0000) % 0x100) as u8,
        ((x / 0x100_0000_0000_0000) % 0x100) as u8,
    ]
}

/// Reads the little-endian `u64` stored at `data[off..off + 8]`.
pub fn read_u64_le(data: &[u8], off: usize) -> (v: u64)
    requires
        off + 8 <= data@.len(),
    ensures
        v == le_u64_at(data@, off as int),
{
    let b0 = data[off] as u64;
    let b1 = data[off + 1] as u64;
    let b2 = data[off + 2] as u64;
    let b3 = data[off + 3] as u64;
    let b4 = data[off + 4] as u64;
    let b5 = data[off + 5] as u64;
    let b6 = data[off + 6] as u64;
    let b7 = data[off + 7] as u64;
    b0 + b1 * 0x100 + b2 * 0x1_0000 + b3 * 0x100_0000 + b4 * 0x1_0000_0000
        + b5 * 0x100_0000_0000 + b6 * 0x1_0000_0000_0000 + b7 * 0x100_0000_0000_0000
}

/// The little-endian byte representation of `x`.
pub fn u64_to_le_bytes(x: u64) -> (b: [u8; 8])
    ensures
        b@ == le_bytes(x),
{
    let b = [
        (x % 0x100) as u8,
        ((x / 0x100) % 0x100) as u8,
        ((x / 0x1_0000) % 0x100) as u8,
        ((x / 0x100_0000) % 0x100) as u8,
        ((x / 0x1_0000_0000) % 0x100) as u8,
        ((x / 0x100_0000_0000) % 0x100) as u8,
        ((x / 0x1_0000_0000_0000) % 0x100) as u8,
        ((x / 0x100_0000_0000_0000) % 0x100) as u8,
    ];
    assert(b@ =~= le_bytes(x));
    b
}

/// Writing a `u64` little-endian and reading it back gives the same value.
pub proof fn lemma_le_bytes_roundtrip(x: u64)
    ensures
        le_bytes(x).len() == 8,
        le_u64_at(le_bytes(x), 0) == x,
{
    assert(
        x % 0x100 + ((x / 0x100) % 0x100) * 0x100 + ((x / 0x1_0000) % 0x100) * 0x1_0000
            + ((x / 0x100_0000) % 0x100) * 0x100_0000 + ((x / 0x1_0000_0000) % 0x100)
            * 0x1_0000_0000 + ((x / 0x100_0000_0000) % 0x100) * 0x100_0000_0000 + ((x
            / 0x1_0000_0000_0000) % 0x100) * 0x1_0000_0000_0000 + ((x / 0x100_0000_0000_0000)
            % 0x100) * 0x100_0000_0000_0000 == x
    ) by (bit_vector);
}

} // verus!
