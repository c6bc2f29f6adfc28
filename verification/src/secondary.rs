//! Secondary engine: decodes one request from its wire bytes, validates it
//! against the register bank's bounds and the write-protect mask, applies an
//! accepted request to the bank and produces the response bytes.
//!
//! Reading the bytes off a concrete stream and writing the response back is
//! the embedding program's part; the engine itself is a pure transform and
//! is verified against the wire model.
use crate::cast::{bytes_to_regs128, regs_to_bytes};
use crate::crc8::{crc, lemma_crc_append, spec_crc};
use crate::nak::{spec_nak_byte, NakCode};
use crate::packet::UrapRecievedPacket;
use crate::wire::{
    lemma_any_protected_extend, lemma_flatten_elem, lemma_head_count_bounds, spec_any_protected,
    spec_body_len, spec_head_count, spec_head_is_write, spec_read_response, spec_store,
    spec_validate,
};
use crate::ACK;
use vstd::bytes::{spec_u16_from_le_bytes, u16_from_le_bytes};
use vstd::prelude::*;

verus! {

/// How many bytes follow the three header bytes of a request whose head
/// byte is `head`: the payload plus the trailing CRC for a write, the
/// trailing CRC alone for a read. A transport reads the header, asks this,
/// and reads that many more bytes before handing both parts to `poll`.
pub fn body_len(head: u8) -> (r: usize)
    ensures
        r == spec_body_len(head),
{
    proof {
        lemma_head_count_bounds(head);
    }
    if head & 0x80 != 0 {
        ((head & 0x7f) as usize + 1) * 4 + 1
    } else {
        1
    }
}

/// Secondary server: polls incoming packets against its write-protect mask
/// and processes them against a register bank.
pub struct UrapSecondary {
    writeprotect: Vec<bool>,
}

impl UrapSecondary {
    /// The write-protection mask, one flag per register; its length is the
    /// register count of the bank this Secondary serves.
    pub closed spec fn write_protect(&self) -> Seq<bool> {
        self.writeprotect@
    }

    /// Create a new secondary server from the boolean values corresponding
    /// to the write-protect status of the individual registers.
    pub fn new(writeprotect: Vec<bool>) -> (r: Self)
        ensures
            r.write_protect() == writeprotect@,
    {
        UrapSecondary { writeprotect }
    }

    /// Whether any register in [start, start + count) is write-protected.
    fn any_protected(&self, start: usize, count: usize) -> (b: bool)
        requires
            start + count <= self.write_protect().len(),
        ensures
            b == spec_any_protected(self.write_protect(), start as int, count as int),
    {
        let n = self.writeprotect.len();
        let mut protected = false;
        let mut i: usize = 0;
        while i < count
            invariant
                start + count <= n,
                n == self.write_protect().len(),
                0 <= i <= count,
                protected == spec_any_protected(self.write_protect(), start as int, i as int),
            decreases count - i,
        {
            proof {
                lemma_any_protected_extend(self.write_protect(), start as int, i as int);
            }
            protected = protected || self.writeprotect[start + i];
            i = i + 1;
        }
        protected
    }

    /// Decode one request from its wire bytes and validate it. `header`
    /// holds the head byte and the two address bytes; `body` holds the rest
    /// of the packet exactly as the head byte announces it — payload plus
    /// trailing CRC for a write, the trailing CRC alone for a read.
    ///
    /// The result carries the decoded count, start register and (for writes)
    /// payload, plus the NAK code of the first validation check that failed,
    /// if any. Nothing is applied to any bank yet; that is `process`'s step.
    pub fn poll(&self, header: &[u8; 3], body: &[u8]) -> (r: UrapRecievedPacket)
        requires
            body@.len() == spec_body_len(header@[0]),
        ensures
            r.count == spec_head_count(header@[0]),
            r.start_register == spec_u16_from_le_bytes(header@.subrange(1, 3)),
            r.is_write() == spec_head_is_write(header@[0]),
            r.nak_code == spec_validate(
                header@ + body@,
                r.start_register,
                r.count as int,
                r.is_write(),
                self.write_protect(),
            ),
            r.is_write() ==> forall|i: int|
                0 <= i < r.count ==> r.write_buffer.unwrap()@[i]@ == body@.subrange(
                    4 * i,
                    4 * i + 4,
                ),
            r.is_write() ==> forall|i: int|
                r.count <= i < 128 ==> r.write_buffer.unwrap()@[i]@ == seq![0u8, 0u8, 0u8, 0u8],
            r.wf(self.write_protect().len() as int),
    {
        let head = header[0];
        proof {
            lemma_head_count_bounds(head);
        }
        let write = head & 0x80 != 0;
        let count: u8 = (head & 0x7f) + 1;
        let start_register = u16_from_le_bytes(&header.as_slice()[1..3]);

        let crc_header = crc(0, header.as_slice());
        let calcd_crc = crc(crc_header, body);
        proof {
            lemma_crc_append(0, header@, body@);
        }

        let reg_count = self.writeprotect.len();

        let nak_code = if calcd_crc != 0 {
            Some(NakCode::BadCrc)
        } else if start_register as usize >= reg_count {
            Some(NakCode::OutOfBounds)
        } else if start_register as usize + count as usize > reg_count {
            Some(NakCode::CountExceedsBounds)
        } else if write && self.any_protected(start_register as usize, count as usize) {
            Some(NakCode::IndexWriteProtected)
        } else {
            None
        };

        let write_buffer = if write {
            let count_bytes = count as usize * 4;
            let mut padded: Vec<u8> = Vec::new();
            let mut i: usize = 0;
            while i < count_bytes
                invariant
                    count_bytes + 1 == body@.len(),
                    0 <= i <= count_bytes,
                    padded@.len() == i,
                    forall|k: int| 0 <= k < i ==> padded@[k] == body@[k],
                decreases count_bytes - i,
            {
                padded.push(body[i]);
                i = i + 1;
            }
            while padded.len() < 512
                invariant
                    count_bytes <= padded@.len() <= 512,
                    forall|k: int| 0 <= k < count_bytes ==> padded@[k] == body@[k],
                    forall|k: int| count_bytes <= k < padded@.len() ==> padded@[k] == 0,
                decreases 512 - padded@.len(),
            {
                padded.push(0);
            }
            let regs = bytes_to_regs128(padded.as_slice());
            proof {
                assert forall|j: int| 0 <= j < count implies regs@[j]@ == body@.subrange(
                    4 * j,
                    4 * j + 4,
                ) by {
                    lemma_flatten_elem(regs@, padded@, j);
                    assert(padded@.subrange(4 * j, 4 * j + 4) =~= body@.subrange(4 * j, 4 * j + 4));
                }
                assert forall|j: int| count <= j < 128 implies regs@[j]@ == seq![
                    0u8,
                    0u8,
                    0u8,
                    0u8,
                ] by {
                    lemma_flatten_elem(regs@, padded@, j);
                    assert(padded@.subrange(4 * j, 4 * j + 4) =~= seq![0u8, 0u8, 0u8, 0u8]);
                }
            }
            Some(regs)
        } else {
            None
        };

        UrapRecievedPacket { count, start_register, write_buffer, nak_code }
    }

    /// Process a packet read by polling: apply it to the register bank and
    /// return the response bytes to transmit.
    ///
    /// A packet carrying a NAK code leaves the bank untouched and is
    /// answered with that single byte. An accepted write copies its payload
    /// into the addressed range and is answered with the single ACK byte. An
    /// accepted read leaves the bank untouched and is answered with the ACK
    /// byte, the addressed registers' bytes, and a CRC over the register
    /// bytes alone.
    pub fn process(
        &self,
        recieved_packet: UrapRecievedPacket,
        registers: &mut Vec<[u8; 4]>,
    ) -> (response: Vec<u8>)
        requires
            recieved_packet.wf(old(registers)@.len() as int),
        ensures
            recieved_packet.nak_code is Some ==> final(registers)@ == old(registers)@ && response@
                == seq![spec_nak_byte(recieved_packet.nak_code.unwrap())],
            recieved_packet.nak_code is None && recieved_packet.is_write() ==> final(registers)@
                == spec_store(
                old(registers)@,
                recieved_packet.start_register as int,
                recieved_packet.write_buffer.unwrap()@.take(recieved_packet.count as int),
            ) && response@ == seq![ACK],
            recieved_packet.nak_code is None && !recieved_packet.is_write() ==> final(registers)@
                == old(registers)@ && response@ == spec_read_response(
                old(registers)@,
                recieved_packet.start_register as int,
                recieved_packet.count as int,
            ),
    {
        if let Some(nak_code) = recieved_packet.nak_code {
            let mut response: Vec<u8> = Vec::new();
            response.push(nak_code.to_byte());
            proof {
                assert(response@ =~= seq![spec_nak_byte(nak_code)]);
            }
            return response;
        }
        let start_register = recieved_packet.start_register as usize;
        let count = recieved_packet.count as usize;
        let bank_len = registers.len();

        if let Some(write_buffer) = recieved_packet.write_buffer {
            let mut i: usize = 0;
            while i < count
                invariant
                    0 <= i <= count,
                    count <= 128,
                    start_register + count <= bank_len,
                    registers@.len() == bank_len,
                    bank_len == old(registers)@.len(),
                    forall|j: int|
                        0 <= j < i ==> registers@[start_register + j] == write_buffer@[j],
                    forall|j: int|
                        0 <= j < registers@.len() && !(start_register <= j < start_register + i)
                            ==> registers@[j] == old(registers)@[j],
                decreases count - i,
            {
                registers[start_register + i] = write_buffer[i];
                i = i + 1;
            }
            proof {
                assert(registers@ =~= spec_store(
                    old(registers)@,
                    start_register as int,
                    write_buffer@.take(count as int),
                ));
            }
            let mut response: Vec<u8> = Vec::new();
            response.push(ACK);
            proof {
                assert(response@ =~= seq![ACK]);
            }
            response
        } else {
            let mut range: Vec<[u8; 4]> = Vec::new();
            let mut i: usize = 0;
            while i < count
                invariant
                    0 <= i <= count,
                    start_register + count <= bank_len,
                    registers@.len() == bank_len,
                    registers@ == old(registers)@,
                    range@ == registers@.subrange(start_register as int, start_register + i),
                decreases count - i,
            {
                range.push(registers[start_register + i]);
                proof {
                    assert(range@ =~= registers@.subrange(start_register as int, start_register + i
                        + 1));
                }
                i = i + 1;
            }
            let data_bytes = regs_to_bytes(range.as_slice());
            let calcd_crc = crc(0, data_bytes.as_slice());
            let mut response: Vec<u8> = Vec::new();
            response.push(ACK);
            response.extend_from_slice(data_bytes.as_slice());
            response.push(calcd_crc);
            proof {
                assert(response@ =~= spec_read_response(
                    registers@,
                    start_register as int,
                    count as int,
                ));
            }
            response
        }
    }
}

} // verus!
