use vstd::bytes::{
    lemma_auto_spec_u64_to_from_le_bytes, spec_u64_from_le_bytes, spec_u64_to_le_bytes,
    u64_from_le_bytes, u64_to_le_bytes,
};
use vstd::prelude::*;
use vstd::slice::slice_subrange;

verus! {

/// Size in bytes of a resource descriptor in the engine's native layout.
pub const RESOURCE_SIZE: usize = 32;

/// Byte offsets of the fields in the engine's native layout (a C struct on a
/// little-endian target: the two 64-bit fields are aligned to 8 bytes).
pub const TY_OFFSET: usize = 0;
pub const BASE_OFFSET: usize = 8;
pub const LENGTH_OFFSET: usize = 16;
pub const ADDRESS_SPACE_OFFSET: usize = 24;
pub const BIT_WIDTH_OFFSET: usize = 25;
pub const BIT_OFFSET_OFFSET: usize = 26;
pub const IRQ_FLAGS_OFFSET: usize = 27;

/// A hardware resource returned by the engine, such as a routed interrupt.
/// The fields are passed through as the engine wrote them.
#[derive(Debug, Clone, Copy, PartialEq, Eq, Structural)]
pub struct AcpiResource {
    pub ty: u8,
    pub base: u64,
    pub length: u64,
    pub address_space: u8,
    pub bit_width: u8,
    pub bit_offset: u8,
    pub irq_flags: u8,
}

/// The 64-bit little-endian value stored at `off` in `b`.
pub open spec fn u64_at(b: Seq<u8>, off: int) -> u64 {
    spec_u64_from_le_bytes(b.subrange(off, off + 8))
}

/// The descriptor that a native-layout buffer holds.
pub open spec fn decoded(b: Seq<u8>) -> AcpiResource {
    AcpiResource {
        ty: b[TY_OFFSET as int],
        base: u64_at(b, BASE_OFFSET as int),
        length: u64_at(b, LENGTH_OFFSET as int),
        address_space: b[ADDRESS_SPACE_OFFSET as int],
        bit_width: b[BIT_WIDTH_OFFSET as int],
        bit_offset: b[BIT_OFFSET_OFFSET as int],
        irq_flags: b[IRQ_FLAGS_OFFSET as int],
    }
}

/// The native-layout buffer of a descriptor, with zeroed padding.
pub open spec fn encoded(r: AcpiResource) -> Seq<u8> {
    seq![r.ty, 0u8, 0u8, 0u8, 0u8, 0u8, 0u8, 0u8]
        + spec_u64_to_le_bytes(r.base)
        + spec_u64_to_le_bytes(r.length)
        + seq![r.address_space, r.bit_width, r.bit_offset, r.irq_flags, 0u8, 0u8, 0u8, 0u8]
}

impl AcpiResource {
    /// Reads a descriptor from a buffer in the engine's native layout,
    /// copying each field as it stands.
    pub fn decode(bytes: &[u8]) -> (r: AcpiResource)
        requires
            bytes@.len() == RESOURCE_SIZE,
        ensures
            r == decoded(bytes@),
    {
        let base = u64_from_le_bytes(slice_subrange(bytes, BASE_OFFSET, BASE_OFFSET + 8));
        let length = u64_from_le_bytes(slice_subrange(bytes, LENGTH_OFFSET, LENGTH_OFFSET + 8));
        AcpiResource {
            ty: bytes[TY_OFFSET],
            base,
            length,
            address_space: bytes[ADDRESS_SPACE_OFFSET],
            bit_width: bytes[BIT_WIDTH_OFFSET],
            bit_offset: bytes[BIT_OFFSET_OFFSET],
            irq_flags: bytes[IRQ_FLAGS_OFFSET],
        }
    }

    /// Writes this descriptor in the engine's native layout.
    pub fn encode(&self) -> (r: Vec<u8>)
        ensures
            r@ == encoded(*self),
            r@.len() == RESOURCE_SIZE,
    {
        proof {
            lemma_auto_spec_u64_to_from_le_bytes();
        }
        let mut out: Vec<u8> = vec![self.ty, 0u8, 0u8, 0u8, 0u8, 0u8, 0u8, 0u8];
        let mut base = u64_to_le_bytes(self.base);
        let mut length = u64_to_le_bytes(self.length);
        let mut tail: Vec<u8> = vec![
            self.address_space,
            self.bit_width,
            self.bit_offset,
            self.irq_flags,
            0u8,
            0u8,
            0u8,
            0u8,
        ];
        out.append(&mut base);
        out.append(&mut length);
        out.append(&mut tail);
        out
    }
}

/// Decoding the native-layout buffer of a descriptor gives back that
/// descriptor: decoding is a pure field copy.
pub proof fn lemma_decode_encode(r: AcpiResource)
    ensures
        encoded(r).len() == RESOURCE_SIZE,
        decoded(encoded(r)) == r,
{
    lemma_auto_spec_u64_to_from_le_bytes();
    let b = encoded(r);
    let head = seq![r.ty, 0u8, 0u8, 0u8, 0u8, 0u8, 0u8, 0u8];
    let tail = seq![r.address_space, r.bit_width, r.bit_offset, r.irq_flags, 0u8, 0u8, 0u8, 0u8];
    assert(b.subrange(8, 16) =~= spec_u64_to_le_bytes(r.base));
    assert(b.subrange(16, 24) =~= spec_u64_to_le_bytes(r.length));
    assert(b[0] == head[0]);
    assert(b[24] == tail[0]);
    assert(b[25] == tail[1]);
    assert(b[26] == tail[2]);
    assert(b[27] == tail[3]);
}

} // verus!
