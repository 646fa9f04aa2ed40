//! The contents of an index buffer.

use vstd::prelude::*;

verus! {

/// The usage flag of a buffer that holds indices.
pub const INDEX: u32 = 16;

/// The usage flag of a buffer that holds vertices.
pub const VERTEX: u32 = 32;

/// `bytes` holds each index as two bytes, the low byte first.
pub open spec fn low_byte_first(indices: Seq<u16>, bytes: Seq<u8>) -> bool {
    &&& bytes.len() == 2 * indices.len()
    &&& forall|i: int|
        0 <= i < indices.len() ==> #[trigger] indices[i] == bytes[2 * i] + 256 * bytes[2 * i + 1]
}

/// `bytes` holds each index as two bytes, the high byte first.
pub open spec fn high_byte_first(indices: Seq<u16>, bytes: Seq<u8>) -> bool {
    &&& bytes.len() == 2 * indices.len()
    &&& forall|i: int|
        0 <= i < indices.len() ==> #[trigger] indices[i] == 256 * bytes[2 * i] + bytes[2 * i + 1]
}

/// `bytes` holds the indices in the byte order of some machine.
pub open spec fn in_memory_order(indices: Seq<u16>, bytes: Seq<u8>) -> bool {
    low_byte_first(indices, bytes) || high_byte_first(indices, bytes)
}

/// `bytemuck::cast_slice` from `u16` to `u8`: the bytes that the indices
/// occupy in memory, two for each, in the machine's byte order. Which order
/// that is, is not known here. The cast cannot fail in this direction.
#[verifier::external_body]
pub(crate) fn cast_indices(indices: &[u16]) -> (bytes: Vec<u8>)
    ensures
        in_memory_order(indices@, bytes@),
{
    bytemuck::cast_slice::<u16, u8>(indices).to_vec()
}

} // verus!
