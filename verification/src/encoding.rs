use vstd::prelude::*;

verus! {

/// The unsigned big-endian 16-bit value spelled by the two bytes of `b`
/// starting at index `i`.
pub open spec fn be16(b: Seq<u8>, i: int) -> int {
    b[i] * 0x100 + b[i + 1]
}

/// The unsigned big-endian 32-bit value spelled by the four bytes of `b`
/// starting at index `i`.
pub open spec fn be32(b: Seq<u8>, i: int) -> int {
    b[i] * 0x1000000 + b[i + 1] * 0x10000 + b[i + 2] * 0x100 + b[i + 3]
}

/// The big-endian 16-bit value at index `i` of `b`, read as a
/// two's-complement signed integer.
pub open spec fn sbe16(b: Seq<u8>, i: int) -> int {
    if be16(b, i) >= 0x8000 {
        be16(b, i) - 0x10000
    } else {
        be16(b, i)
    }
}

} // verus!
