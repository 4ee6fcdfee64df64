//! The magic value by which an application marks the path to a shader's debug
//! information, so that the debugger can match it with the stripped shader.

use vstd::prelude::*;

verus! {

/// The magic value as bytes, in the order in which they lie in memory.
pub const SHADER_MAGIC_DEBUG_VALUE_BYTE_ARRAY: [u8; 16] = [
    0x20,
    0x55,
    0xb2,
    0xea,
    0x70,
    0x66,
    0x65,
    0x48,
    0x84,
    0x29,
    0x6c,
    0x08,
    0x51,
    0x54,
    0x00,
    0xff,
];

/// The magic value cut to its first eight bytes, for where only a 64-bit tag
/// can be attached.
pub const SHADER_MAGIC_DEBUG_VALUE_TRUNCATED: u64 = 0x4865_6670_eab2_5520;

/// The number that eight bytes are when the first is the lowest.
pub open spec fn little_endian(bytes: Seq<u8>) -> int {
    bytes[0] + bytes[1] * 0x100 + bytes[2] * 0x1_0000 + bytes[3] * 0x100_0000 + bytes[4]
        * 0x1_0000_0000 + bytes[5] * 0x100_0000_0000 + bytes[6] * 0x1_0000_0000_0000 + bytes[7]
        * 0x100_0000_0000_0000
}

/// The truncated value is the first eight bytes of the full one, read with
/// the first byte lowest.
pub proof fn lemma_truncated_value_is_the_first_half()
    ensures
        SHADER_MAGIC_DEBUG_VALUE_TRUNCATED == little_endian(
            SHADER_MAGIC_DEBUG_VALUE_BYTE_ARRAY@.subrange(0, 8),
        ),
{
}

} // verus!
