//! Primary engine: encodes read and write requests and validates the
//! Secondary's answers. Sending the bytes and collecting the reply off a
//! concrete stream is the embedding program's part; everything that decides
//! what the bytes mean is here, verified against the wire model.
use crate::cast::{bytes_to_regs, regs_to_bytes};
use crate::crc8::{crc, lemma_crc_append, lemma_crc_self_check, spec_crc};
use crate::nak::{spec_nak_of_byte, NakCode};
use crate::wire::{spec_flatten, spec_read_request, spec_write_request};
use crate::ACK;
use vstd::bytes::u16_to_le_bytes;
use vstd::prelude::*;

verus! {

/// Encode a read request for `count` registers starting at `start_register`:
/// head byte, little-endian address, trailing CRC. The packet checks against
/// its own checksum, so an undisturbed Secondary accepts it.
pub fn encode_read_request(start_register: u16, count: u8) -> (r: Vec<u8>)
    requires
        1 <= count <= 128,
    ensures
        r@ == spec_read_request(start_register, count as int),
        spec_crc(0, r@) == 0,
{
    let head: u8 = count - 1;
    let mut packet: Vec<u8> = Vec::new();
    packet.push(head);
    let le = u16_to_le_bytes(start_register);
    packet.extend_from_slice(le.as_slice());
    let ghost hdr = packet@;
    proof {
        assert(hdr =~= seq![head] + le@);
    }
    let calcd_crc = crc(0, packet.as_slice());
    packet.push(calcd_crc);
    proof {
        assert(packet@ =~= hdr + seq![spec_crc(0, hdr)]);
        lemma_crc_self_check(hdr);
    }
    packet
}

/// Encode a write request carrying the registers in `data`, to be stored
/// starting at `start_register`: head byte with the write bit, little-endian
/// address, the registers' bytes, trailing CRC. The packet checks against
/// its own checksum.
pub fn encode_write_request(start_register: u16, data: &[[u8; 4]]) -> (r: Vec<u8>)
    requires
        1 <= data@.len() <= 128,
    ensures
        r@ == spec_write_request(start_register, data@),
        spec_crc(0, r@) == 0,
{
    let head: u8 = (data.len() - 1) as u8 | 0x80;
    let mut packet: Vec<u8> = Vec::new();
    packet.push(head);
    let le = u16_to_le_bytes(start_register);
    packet.extend_from_slice(le.as_slice());
    let data_bytes = regs_to_bytes(data);
    packet.extend_from_slice(data_bytes.as_slice());
    let ghost hdr = packet@;
    proof {
        assert(hdr =~= seq![head] + le@ + data_bytes@);
    }
    let calcd_crc = crc(0, packet.as_slice());
    packet.push(calcd_crc);
    proof {
        assert(packet@ =~= hdr + seq![spec_crc(0, hdr)]);
        lemma_crc_self_check(hdr);
    }
    packet
}

/// Judge the single answer byte of a request: the ACK byte means success,
/// any other byte is the NAK code it names (an unrecognized byte names
/// `Unknown`).
pub fn check_ack(ack_or_nak: u8) -> (r: Result<(), NakCode>)
    ensures
        r is Ok <==> ack_or_nak == ACK,
        r is Err ==> r.unwrap_err() == spec_nak_of_byte(ack_or_nak),
{
    if ack_or_nak == ACK {
        Ok(())
    } else {
        Err(NakCode::from(ack_or_nak))
    }
}

/// Verify the payload of a read response against its trailing CRC byte:
/// accept exactly when the running checksum of the data bytes followed by
/// the CRC byte is zero.
pub fn verify_read_payload(data: &[u8], crc_byte: u8) -> (ok: bool)
    ensures
        ok <==> spec_crc(0, data@ + seq![crc_byte]) == 0,
{
    let calcd_crc = crc(0, data);
    let tail: [u8; 1] = [crc_byte];
    let trailing = crc(calcd_crc, tail.as_slice());
    proof {
        assert(tail@ =~= seq![crc_byte]);
        lemma_crc_append(0, data@, seq![crc_byte]);
    }
    trailing == 0
}

/// Split the payload of a read response back into four-byte registers, in
/// wire order: register `i` takes bytes `4*i .. 4*i + 4`.
pub fn decode_read_payload(data: &[u8]) -> (r: Vec<[u8; 4]>)
    requires
        data@.len() % 4 == 0,
    ensures
        4 * r@.len() == data@.len(),
        spec_flatten(r@) == data@,
{
    bytes_to_regs(data)
}

} // verus!
