//! Wire codec model: the exact byte layout of requests and responses for
//! both roles, and the validation and register-bank transforms stated over
//! it. Everything here is specification; the executable encoders and the
//! Secondary engine are proved against these definitions.
use crate::crc8::{lemma_crc_self_check, spec_crc};
use crate::nak::NakCode;
use crate::ACK;
use vstd::bytes::{
    lemma_auto_spec_u16_to_from_le_bytes, spec_u16_from_le_bytes, spec_u16_to_le_bytes,
};
use vstd::prelude::*;

verus! {

/// The number of registers a head byte announces: its low seven bits carry
/// count - 1, so the count ranges over 1..=128.
pub open spec fn spec_head_count(head: u8) -> int {
    (head & 0x7f) + 1
}

/// Whether a head byte announces a write request (its most significant bit).
pub open spec fn spec_head_is_write(head: u8) -> bool {
    head & 0x80 != 0
}

/// How many bytes follow the three header bytes of a request with this head
/// byte: the payload plus the trailing CRC for a write, the trailing CRC
/// alone for a read.
pub open spec fn spec_body_len(head: u8) -> int {
    if spec_head_is_write(head) {
        spec_head_count(head) * 4 + 1
    } else {
        1
    }
}

/// A head byte always announces between 1 and 128 registers.
pub proof fn lemma_head_count_bounds(head: u8)
    ensures
        1 <= spec_head_count(head) <= 128,
{
    assert(head & 0x7f < 128) by (bit_vector);
}

/// Head byte round trip: encoding a count of `x + 1` registers, with or
/// without the write bit, decodes to the same count and the right mode.
pub proof fn lemma_head_roundtrip(x: u8)
    requires
        x < 128,
    ensures
        spec_head_count(x | 0x80) == x + 1,
        spec_head_is_write(x | 0x80),
        spec_head_count(x) == x + 1,
        !spec_head_is_write(x),
{
    assert(((x | 0x80) & 0x7f) == x && ((x | 0x80) & 0x80) != 0 && (x & 0x7f) == x && (x & 0x80)
        == 0) by (bit_vector)
        requires
            x < 128,
    ;
}

/// The bytes of a register sequence in wire order: each register contributes
/// its four bytes in place.
pub open spec fn spec_flatten(regs: Seq<[u8; 4]>) -> Seq<u8>
    decreases regs.len(),
{
    if regs.len() == 0 {
        Seq::empty()
    } else {
        regs[0]@ + spec_flatten(regs.skip(1))
    }
}

pub proof fn lemma_flatten_len(regs: Seq<[u8; 4]>)
    ensures
        spec_flatten(regs).len() == 4 * regs.len(),
    decreases regs.len(),
{
    if regs.len() > 0 {
        lemma_flatten_len(regs.skip(1));
    }
}

/// Byte `4 * i + j` of the flattened bytes is byte `j` of register `i`.
pub proof fn lemma_flatten_index(regs: Seq<[u8; 4]>, i: int, j: int)
    requires
        0 <= i < regs.len(),
        0 <= j < 4,
    ensures
        spec_flatten(regs).len() == 4 * regs.len(),
        spec_flatten(regs)[4 * i + j] == regs[i]@[j],
    decreases i,
{
    lemma_flatten_len(regs);
    lemma_flatten_len(regs.skip(1));
    if i > 0 {
        lemma_flatten_index(regs.skip(1), i - 1, j);
    }
}

/// If two register sequences flatten to the same bytes, each register of the
/// first holds the corresponding four-byte window of those bytes.
pub proof fn lemma_flatten_elem(regs: Seq<[u8; 4]>, bytes: Seq<u8>, i: int)
    requires
        spec_flatten(regs) == bytes,
        0 <= i < regs.len(),
    ensures
        regs[i]@ == bytes.subrange(4 * i, 4 * i + 4),
{
    lemma_flatten_len(regs);
    assert forall|j: int| 0 <= j < 4 implies regs[i]@[j] == bytes.subrange(4 * i, 4 * i + 4)[j] by {
        lemma_flatten_index(regs, i, j);
    }
    assert(regs[i]@ =~= bytes.subrange(4 * i, 4 * i + 4));
}

/// Whether any register in [start, start + count) is write-protected.
pub open spec fn spec_any_protected(wp: Seq<bool>, start: int, count: int) -> bool {
    exists|i: int| start <= i < start + count && wp[i]
}

/// Extending the scanned range by one register ORs in that register's flag.
pub proof fn lemma_any_protected_extend(wp: Seq<bool>, start: int, count: int)
    requires
        count >= 0,
    ensures
        spec_any_protected(wp, start, count + 1) == (spec_any_protected(wp, start, count)
            || wp[start + count]),
{
    if spec_any_protected(wp, start, count) {
        let i = choose|i: int| start <= i < start + count && wp[i];
        assert(start <= i < start + count + 1 && wp[i]);
    }
    if wp[start + count] {
        assert(start <= start + count < start + count + 1 && wp[start + count]);
    }
    if spec_any_protected(wp, start, count + 1) && !wp[start + count] {
        let i = choose|i: int| start <= i < start + count + 1 && wp[i];
        assert(start <= i < start + count && wp[i]);
    }
}

/// Validation of a decoded request against a bank of `wp.len()` registers,
/// in the protocol's fixed priority order: a CRC mismatch over the whole
/// packet wins, then a start register beyond the bank, then a range that
/// begins inside the bank but runs past its end, and last — for writes only —
/// a write-protected register inside the range. A request that passes all
/// four is honored.
pub open spec fn spec_validate(
    packet: Seq<u8>,
    start_register: u16,
    count: int,
    write: bool,
    wp: Seq<bool>,
) -> Option<NakCode> {
    if spec_crc(0, packet) != 0 {
        Some(NakCode::BadCrc)
    } else if start_register >= wp.len() {
        Some(NakCode::OutOfBounds)
    } else if start_register + count > wp.len() {
        Some(NakCode::CountExceedsBounds)
    } else if write && spec_any_protected(wp, start_register as int, count) {
        Some(NakCode::IndexWriteProtected)
    } else {
        None
    }
}

/// The wire bytes of a read request for `count` registers at
/// `start_register`: head byte, little-endian address, trailing CRC.
pub open spec fn spec_read_request(start_register: u16, count: int) -> Seq<u8> {
    let hdr = seq![(count - 1) as u8] + spec_u16_to_le_bytes(start_register);
    hdr + seq![spec_crc(0, hdr)]
}

/// The wire bytes of a write request carrying `data` at `start_register`:
/// head byte with the write bit, little-endian address, the registers' bytes,
/// trailing CRC.
pub open spec fn spec_write_request(start_register: u16, data: Seq<[u8; 4]>) -> Seq<u8> {
    let hdr = seq![(((data.len() - 1) as u8) | 0x80)] + spec_u16_to_le_bytes(start_register)
        + spec_flatten(data);
    hdr + seq![spec_crc(0, hdr)]
}

/// The register bank after writing `data` at `start`: the addressed range is
/// replaced register for register, every other register keeps its value.
pub open spec fn spec_store(regs: Seq<[u8; 4]>, start: int, data: Seq<[u8; 4]>) -> Seq<[u8; 4]> {
    Seq::new(
        regs.len(),
        |i: int|
            if start <= i < start + data.len() {
                data[i - start]
            } else {
                regs[i]
            },
    )
}

/// The successful response to a read request: the ACK byte, the addressed
/// registers' bytes, and a CRC over the register bytes alone. The ACK byte
/// is not covered by the checksum — that asymmetry is part of the wire
/// contract.
pub open spec fn spec_read_response(regs: Seq<[u8; 4]>, start: int, count: int) -> Seq<u8> {
    let data = spec_flatten(regs.subrange(start, start + count));
    seq![ACK] + data + seq![spec_crc(0, data)]
}

/// Codec round trip for read requests: an encoded read request decodes to
/// the same count and start register, announces a read, carries exactly the
/// one trailing byte the Secondary will ask for, and checks against its own
/// CRC.
pub proof fn lemma_read_request_decodes(start_register: u16, count: int)
    requires
        1 <= count <= 128,
    ensures
        ({
            let p = spec_read_request(start_register, count);
            &&& p.len() == 4
            &&& !spec_head_is_write(p[0])
            &&& spec_head_count(p[0]) == count
            &&& spec_u16_from_le_bytes(p.subrange(1, 3)) == start_register
            &&& spec_body_len(p[0]) == p.len() - 3
            &&& spec_crc(0, p) == 0
        }),
{
    let x = (count - 1) as u8;
    let le = spec_u16_to_le_bytes(start_register);
    lemma_auto_spec_u16_to_from_le_bytes();
    let hdr = seq![x] + le;
    let p = spec_read_request(start_register, count);
    assert(p == hdr + seq![spec_crc(0, hdr)]);
    assert(p[0] == x);
    lemma_head_roundtrip(x);
    assert(p.subrange(1, 3) =~= le);
    lemma_crc_self_check(hdr);
}

/// Codec round trip for write requests: an encoded write request decodes to
/// the same count and start register, announces a write, carries exactly the
/// payload-plus-CRC body the Secondary will ask for, holds the registers'
/// bytes in wire order, and checks against its own CRC.
pub proof fn lemma_write_request_decodes(start_register: u16, data: Seq<[u8; 4]>)
    requires
        1 <= data.len() <= 128,
    ensures
        ({
            let p = spec_write_request(start_register, data);
            &&& p.len() == 4 + 4 * data.len()
            &&& spec_head_is_write(p[0])
            &&& spec_head_count(p[0]) == data.len()
            &&& spec_u16_from_le_bytes(p.subrange(1, 3)) == start_register
            &&& spec_body_len(p[0]) == p.len() - 3
            &&& p.subrange(3, p.len() - 1) == spec_flatten(data)
            &&& spec_crc(0, p) == 0
        }),
{
    let n = data.len() as int;
    let x = (n - 1) as u8;
    let le = spec_u16_to_le_bytes(start_register);
    lemma_auto_spec_u16_to_from_le_bytes();
    let fl = spec_flatten(data);
    lemma_flatten_len(data);
    let hdr = seq![(x | 0x80)] + le + fl;
    let p = spec_write_request(start_register, data);
    assert(p == hdr + seq![spec_crc(0, hdr)]);
    assert(p[0] == x | 0x80);
    lemma_head_roundtrip(x);
    assert(p.subrange(1, 3) =~= le);
    assert(p.subrange(3, p.len() - 1) =~= fl);
    lemma_crc_self_check(hdr);
}

} // verus!
