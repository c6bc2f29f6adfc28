//! The protocol's cross-cutting guarantees, stated and proved over the wire
//! model that `poll`, `process` and the request encoders are specified
//! against.
use crate::crc8::{lemma_crc_detects_bit_flip, lemma_crc_self_check, spec_crc};
use crate::nak::{spec_nak_byte, spec_nak_of_byte, NakCode};
use crate::wire::{
    lemma_read_request_decodes, lemma_write_request_decodes, spec_any_protected, spec_flatten,
    spec_read_request, spec_read_response, spec_store, spec_validate, spec_write_request,
};
use crate::ACK;
use vstd::prelude::*;

verus! {

/// Round trip: a write of `data` at `start_register` whose range lies in
/// bounds and touches no write-protected register is accepted, and lands in
/// the bank register for register while every other register keeps its
/// value; a read request for the same range is accepted too, and its
/// response carries back exactly the written bytes, under a checksum that
/// verifies.
pub proof fn lemma_write_read_round_trip(
    regs: Seq<[u8; 4]>,
    wp: Seq<bool>,
    start_register: u16,
    data: Seq<[u8; 4]>,
)
    requires
        wp.len() == regs.len(),
        1 <= data.len() <= 128,
        start_register + data.len() <= regs.len(),
        forall|i: int| start_register <= i < start_register + data.len() ==> !wp[i],
    ensures
        spec_validate(
            spec_write_request(start_register, data),
            start_register,
            data.len() as int,
            true,
            wp,
        ) is None,
        spec_validate(
            spec_read_request(start_register, data.len() as int),
            start_register,
            data.len() as int,
            false,
            wp,
        ) is None,
        spec_store(regs, start_register as int, data).len() == regs.len(),
        spec_store(regs, start_register as int, data).subrange(
            start_register as int,
            start_register + data.len(),
        ) == data,
        forall|i: int|
            0 <= i < regs.len() && !(start_register <= i < start_register + data.len())
                ==> spec_store(regs, start_register as int, data)[i] == regs[i],
        spec_read_response(
            spec_store(regs, start_register as int, data),
            start_register as int,
            data.len() as int,
        ) == seq![ACK] + spec_flatten(data) + seq![spec_crc(0, spec_flatten(data))],
        spec_crc(0, spec_flatten(data) + seq![spec_crc(0, spec_flatten(data))]) == 0,
{
    let n = data.len() as int;
    let a = start_register as int;
    lemma_write_request_decodes(start_register, data);
    lemma_read_request_decodes(start_register, n);
    assert(!spec_any_protected(wp, a, n)) by {
        if spec_any_protected(wp, a, n) {
            let i = choose|i: int| a <= i < a + n && wp[i];
        }
    }
    let stored = spec_store(regs, a, data);
    assert(stored.subrange(a, a + n) =~= data);
    lemma_crc_self_check(spec_flatten(data));
}

/// Write-protect enforcement: a write request whose range lies in bounds but
/// contains any write-protected register is refused with exactly
/// `IndexWriteProtected`, and that code survives the trip through its NAK
/// byte back to the Primary, where it is distinguishable from an ACK. (That
/// a refused packet leaves every register unchanged is part of `process`'s
/// contract.)
pub proof fn lemma_write_protected_rejected(wp: Seq<bool>, start_register: u16, data: Seq<[u8; 4]>)
    requires
        1 <= data.len() <= 128,
        start_register + data.len() <= wp.len(),
        exists|i: int| start_register <= i < start_register + data.len() && wp[i],
    ensures
        spec_validate(
            spec_write_request(start_register, data),
            start_register,
            data.len() as int,
            true,
            wp,
        ) == Some(NakCode::IndexWriteProtected),
        spec_nak_of_byte(spec_nak_byte(NakCode::IndexWriteProtected))
            == NakCode::IndexWriteProtected,
        spec_nak_byte(NakCode::IndexWriteProtected) != ACK,
{
    lemma_write_request_decodes(start_register, data);
}

/// Bounds enforcement: whatever the request's mode, a CRC-clean packet whose
/// start register lies at or past the end of the bank is refused with
/// `OutOfBounds`, and one whose start lies inside but whose range runs past
/// the end is refused with `CountExceedsBounds`.
pub proof fn lemma_bounds_rejected(
    packet: Seq<u8>,
    start_register: u16,
    count: int,
    write: bool,
    wp: Seq<bool>,
)
    requires
        spec_crc(0, packet) == 0,
    ensures
        start_register >= wp.len() ==> spec_validate(packet, start_register, count, write, wp)
            == Some(NakCode::OutOfBounds),
        start_register < wp.len() && start_register + count > wp.len() ==> spec_validate(
            packet,
            start_register,
            count,
            write,
            wp,
        ) == Some(NakCode::CountExceedsBounds),
{
}

/// Write protection binds writes alone: validation of a read request never
/// answers `IndexWriteProtected`, however the mask is set.
pub proof fn lemma_reads_ignore_protection(
    packet: Seq<u8>,
    start_register: u16,
    count: int,
    wp: Seq<bool>,
)
    ensures
        spec_validate(packet, start_register, count, false, wp) != Some(
            NakCode::IndexWriteProtected,
        ),
{
}

/// Corruption detection: flipping any single bit of a packet whose checksum
/// verified — head byte, address, payload or the CRC byte itself — makes
/// validation refuse it with exactly `BadCrc`, whatever range it addresses
/// and whatever the bank looks like. (That a refused packet leaves every
/// register unchanged is part of `process`'s contract.)
pub proof fn lemma_corrupted_packet_rejected(
    packet: Seq<u8>,
    i: int,
    k: u8,
    start_register: u16,
    count: int,
    write: bool,
    wp: Seq<bool>,
)
    requires
        spec_crc(0, packet) == 0,
        0 <= i < packet.len(),
        k < 8,
    ensures
        spec_validate(
            packet.update(i, packet[i] ^ (1u8 << k)),
            start_register,
            count,
            write,
            wp,
        ) == Some(NakCode::BadCrc),
{
    lemma_crc_detects_bit_flip(packet, i, k);
}

/// Concurrency isolation, at the bank level: two writes to disjoint ranges
/// commute, both land in full, and no other register is disturbed — after
/// both, every register holds either its original value or the value one of
/// the two writes put there. (The server applies each `process` under the
/// bank lock, so concurrent workers' writes interleave only at whole-range
/// granularity.)
pub proof fn lemma_disjoint_writes_isolated(
    regs: Seq<[u8; 4]>,
    a1: int,
    d1: Seq<[u8; 4]>,
    a2: int,
    d2: Seq<[u8; 4]>,
)
    requires
        0 <= a1,
        0 <= a2,
        a1 + d1.len() <= regs.len(),
        a2 + d2.len() <= regs.len(),
        a1 + d1.len() <= a2 || a2 + d2.len() <= a1,
    ensures
        spec_store(spec_store(regs, a1, d1), a2, d2) == spec_store(
            spec_store(regs, a2, d2),
            a1,
            d1,
        ),
        spec_store(spec_store(regs, a1, d1), a2, d2).subrange(a1, a1 + d1.len()) == d1,
        spec_store(spec_store(regs, a1, d1), a2, d2).subrange(a2, a2 + d2.len()) == d2,
        forall|i: int|
            0 <= i < regs.len() && !(a1 <= i < a1 + d1.len()) && !(a2 <= i < a2 + d2.len())
                ==> spec_store(spec_store(regs, a1, d1), a2, d2)[i] == regs[i],
{
    let both = spec_store(spec_store(regs, a1, d1), a2, d2);
    assert(both =~= spec_store(spec_store(regs, a2, d2), a1, d1));
    assert(both.subrange(a1, a1 + d1.len()) =~= d1);
    assert(both.subrange(a2, a2 + d2.len()) =~= d2);
}

} // verus!
