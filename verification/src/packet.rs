//! The Secondary-side intermediate between decoding a request and answering
//! it.
use crate::nak::NakCode;
use vstd::prelude::*;

verus! {

/// A packet received during polling: the decoded request together with the
/// NAK code its validation produced, if any. Created once per poll cycle and
/// consumed by the matching `process` call.
pub struct UrapRecievedPacket {
    /// Number of registers being accessed during the operation.
    pub count: u8,
    /// The first register to be accessed in the operation.
    pub start_register: u16,
    /// If None, this is a read operation. If Some, it holds the entire write
    /// payload, zero-padded past the first `count` registers.
    pub write_buffer: Option<[[u8; 4]; 128]>,
    /// If validation failed, the NAK code; it must be written back to the
    /// Primary in place of any other response.
    pub nak_code: Option<NakCode>,
}

impl UrapRecievedPacket {
    /// Whether this packet is a write request.
    pub open spec fn is_write(&self) -> bool {
        self.write_buffer is Some
    }

    /// What `poll` guarantees of every packet it produces: the count lies in
    /// the wire format's 1..=128 range, and, unless the packet was refused
    /// with a NAK code, its register range lies inside a bank of `reg_count`
    /// registers.
    pub open spec fn wf(&self, reg_count: int) -> bool {
        &&& 1 <= self.count <= 128
        &&& self.nak_code is None ==> self.start_register + self.count <= reg_count
    }
}

} // verus!
