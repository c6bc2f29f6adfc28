//! The two reinterpretations between four-byte registers and their wire
//! bytes. The byte order is fixed by the in-memory layout of `[[u8; 4]]`,
//! which is exactly the wire order, so both directions go through bytemuck.
use crate::wire::spec_flatten;
use vstd::prelude::*;

verus! {

/// Relies on bytemuck::checked::cast_slice: a slice of four-byte registers
/// reinterpreted as its underlying bytes (register `i` contributes bytes
/// `4*i .. 4*i + 4`), copied into an owned vector.
#[verifier::external_body]
pub(crate) fn regs_to_bytes(regs: &[[u8; 4]]) -> (r: Vec<u8>)
    ensures
        r@ == spec_flatten(regs@),
{
    bytemuck::checked::cast_slice::<[u8; 4], u8>(regs).to_vec()
}

/// Relies on bytemuck::checked::cast_slice: a byte slice whose length is a
/// multiple of four reinterpreted as four-byte registers (register `i` takes
/// bytes `4*i .. 4*i + 4`), copied into an owned vector.
#[verifier::external_body]
pub(crate) fn bytes_to_regs(bytes: &[u8]) -> (r: Vec<[u8; 4]>)
    requires
        bytes@.len() % 4 == 0,
    ensures
        4 * r@.len() == bytes@.len(),
        spec_flatten(r@) == bytes@,
{
    bytemuck::checked::cast_slice::<u8, [u8; 4]>(bytes).to_vec()
}

/// Relies on bytemuck::checked::from_bytes: 512 bytes reinterpreted as a
/// full write payload of 128 four-byte registers (register `i` takes bytes
/// `4*i .. 4*i + 4`), copied out.
#[verifier::external_body]
pub(crate) fn bytes_to_regs128(bytes: &[u8]) -> (r: [[u8; 4]; 128])
    requires
        bytes@.len() == 512,
    ensures
        spec_flatten(r@) == bytes@,
{
    *bytemuck::checked::from_bytes::<[[u8; 4]; 128]>(bytes)
}

} // verus!
