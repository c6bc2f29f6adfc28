use urap::primary::{check_ack, decode_read_payload, encode_read_request, encode_write_request,
    verify_read_payload};
use urap::secondary::body_len;
use urap::{NakCode, UrapRecievedPacket, UrapSecondary, ACK};

/// Feed one encoded request through poll: split off the three header bytes
/// and hand the rest over as the body.
fn poll_bytes(secondary: &UrapSecondary, packet: &[u8]) -> UrapRecievedPacket {
    let header: [u8; 3] = [packet[0], packet[1], packet[2]];
    assert_eq!(body_len(header[0]), packet.len() - 3);
    secondary.poll(&header, &packet[3..])
}

/// Run one encoded request through poll and process, returning the response
/// bytes the Secondary would transmit.
fn run_request(secondary: &UrapSecondary, bank: &mut Vec<[u8; 4]>, packet: &[u8]) -> Vec<u8> {
    let received = poll_bytes(secondary, packet);
    secondary.process(received, bank)
}

fn fresh_bank(len: usize) -> Vec<[u8; 4]> {
    vec![[0u8; 4]; len]
}

#[test]
fn write_then_read_round_trip() {
    let secondary = UrapSecondary::new(vec![false; 100]);
    let mut bank = fresh_bank(100);

    let data: Vec<[u8; 4]> = (0..5u8).map(|i| [i, i + 1, i + 2, i + 3]).collect();
    let write_req = encode_write_request(10, &data);
    let response = run_request(&secondary, &mut bank, &write_req);
    assert_eq!(response, vec![ACK]);
    assert_eq!(&bank[10..15], &data[..]);
    assert_eq!(bank[9], [0; 4]);
    assert_eq!(bank[15], [0; 4]);

    let read_req = encode_read_request(10, 5);
    let response = run_request(&secondary, &mut bank, &read_req);
    assert_eq!(response[0], ACK);
    let payload = &response[1..response.len() - 1];
    let crc_byte = response[response.len() - 1];
    assert!(verify_read_payload(payload, crc_byte));
    assert_eq!(decode_read_payload(payload), data);
}

#[test]
fn write_protected_register_rejected() {
    // Bank of 3 registers, register 2 protected.
    let secondary = UrapSecondary::new(vec![false, false, true]);
    let mut bank = fresh_bank(3);
    bank[2] = [7, 7, 7, 7];

    let write_req = encode_write_request(2, &[[1, 1, 1, 1]]);
    let received = poll_bytes(&secondary, &write_req);
    assert_eq!(received.nak_code, Some(NakCode::IndexWriteProtected));
    let response = secondary.process(received, &mut bank);
    assert_eq!(response, vec![NakCode::IndexWriteProtected.to_byte()]);
    assert_eq!(check_ack(response[0]), Err(NakCode::IndexWriteProtected));
    // Every register keeps its value.
    assert_eq!(bank, vec![[0; 4], [0; 4], [7, 7, 7, 7]]);

    // A range that merely brushes the protected register is refused too.
    let write_req = encode_write_request(0, &[[1; 4], [2; 4], [3; 4]]);
    let response = run_request(&secondary, &mut bank, &write_req);
    assert_eq!(response, vec![NakCode::IndexWriteProtected.to_byte()]);
    assert_eq!(bank, vec![[0; 4], [0; 4], [7, 7, 7, 7]]);

    // Reads of the protected register are still allowed.
    let read_req = encode_read_request(2, 1);
    let response = run_request(&secondary, &mut bank, &read_req);
    assert_eq!(response[0], ACK);
    assert_eq!(decode_read_payload(&response[1..5]), vec![[7, 7, 7, 7]]);
}

#[test]
fn out_of_bounds_rejected() {
    let secondary = UrapSecondary::new(vec![false; 3]);
    let mut bank = fresh_bank(3);

    let write_req = encode_write_request(3, &[[1; 4]]);
    let response = run_request(&secondary, &mut bank, &write_req);
    assert_eq!(response, vec![NakCode::OutOfBounds.to_byte()]);
    assert_eq!(bank, fresh_bank(3));

    let read_req = encode_read_request(5, 1);
    let response = run_request(&secondary, &mut bank, &read_req);
    assert_eq!(response, vec![NakCode::OutOfBounds.to_byte()]);
}

#[test]
fn count_exceeding_bounds_rejected() {
    let secondary = UrapSecondary::new(vec![false; 3]);
    let mut bank = fresh_bank(3);

    // Starts inside the bank, runs past its end: CountExceedsBounds, not
    // OutOfBounds, for writes and reads alike.
    let write_req = encode_write_request(1, &[[1; 4], [2; 4], [3; 4]]);
    let response = run_request(&secondary, &mut bank, &write_req);
    assert_eq!(response, vec![NakCode::CountExceedsBounds.to_byte()]);
    assert_eq!(bank, fresh_bank(3));

    let read_req = encode_read_request(2, 2);
    let response = run_request(&secondary, &mut bank, &read_req);
    assert_eq!(response, vec![NakCode::CountExceedsBounds.to_byte()]);
}

#[test]
fn count_exceeds_bounds_at_address_top() {
    // A full 16-bit address space: a two-register write at the very last
    // address starts in bounds but runs past the end.
    let reg_count = u16::MAX as usize + 1;
    let secondary = UrapSecondary::new(vec![false; reg_count]);
    let mut bank = fresh_bank(reg_count);

    let write_req = encode_write_request(u16::MAX, &[[1; 4], [2; 4]]);
    let response = run_request(&secondary, &mut bank, &write_req);
    assert_eq!(response, vec![NakCode::CountExceedsBounds.to_byte()]);
    // No mutation anywhere.
    assert!(bank.iter().all(|reg| *reg == [0u8; 4]));

    // A single-register write at the same address is the last one that fits.
    let write_req = encode_write_request(u16::MAX, &[[9, 8, 7, 6]]);
    let response = run_request(&secondary, &mut bank, &write_req);
    assert_eq!(response, vec![ACK]);
    assert_eq!(bank[u16::MAX as usize], [9, 8, 7, 6]);
}

#[test]
fn corrupted_packets_rejected_without_mutation() {
    let secondary = UrapSecondary::new(vec![false; 8]);

    let write_req = encode_write_request(1, &[[0xAB; 4], [0xCD; 4]]);
    // Flip each single bit of the address, payload and CRC bytes in turn.
    // (Flipping a head-byte bit changes how many bytes the Secondary would
    // read off the stream, so those corruptions surface as framing errors at
    // the transport, not as packets.)
    for i in 1..write_req.len() {
        for k in 0..8 {
            let mut corrupted = write_req.clone();
            corrupted[i] ^= 1 << k;
            let mut bank = fresh_bank(8);
            let received = poll_bytes(&secondary, &corrupted);
            assert_eq!(received.nak_code, Some(NakCode::BadCrc));
            let response = secondary.process(received, &mut bank);
            assert_eq!(response, vec![NakCode::BadCrc.to_byte()]);
            assert_eq!(bank, fresh_bank(8));
        }
    }

    let read_req = encode_read_request(2, 4);
    for i in 1..read_req.len() {
        for k in 0..8 {
            let mut corrupted = read_req.clone();
            corrupted[i] ^= 1 << k;
            let mut bank = fresh_bank(8);
            let response = run_request(&secondary, &mut bank, &corrupted);
            assert_eq!(response, vec![NakCode::BadCrc.to_byte()]);
        }
    }
}

#[test]
fn validation_order_crc_first() {
    // A corrupted packet that would also be out of bounds reports BadCrc:
    // the checksum check wins.
    let secondary = UrapSecondary::new(vec![false; 2]);
    let mut bank = fresh_bank(2);
    let mut req = encode_write_request(500, &[[1; 4]]);
    let crc_index = req.len() - 1;
    req[crc_index] ^= 0xFF;
    let response = run_request(&secondary, &mut bank, &req);
    assert_eq!(response, vec![NakCode::BadCrc.to_byte()]);

    // Intact again, the same packet reports OutOfBounds.
    let req = encode_write_request(500, &[[1; 4]]);
    let response = run_request(&secondary, &mut bank, &req);
    assert_eq!(response, vec![NakCode::OutOfBounds.to_byte()]);
}

#[test]
fn disjoint_writes_both_land() {
    let secondary = UrapSecondary::new(vec![false; 16]);
    let mut bank = fresh_bank(16);

    let first = encode_write_request(0, &[[1; 4], [2; 4]]);
    let second = encode_write_request(8, &[[3; 4], [4; 4]]);
    assert_eq!(run_request(&secondary, &mut bank, &first), vec![ACK]);
    assert_eq!(run_request(&secondary, &mut bank, &second), vec![ACK]);

    assert_eq!(bank[0], [1; 4]);
    assert_eq!(bank[1], [2; 4]);
    assert_eq!(bank[8], [3; 4]);
    assert_eq!(bank[9], [4; 4]);
    // No register holds a value nobody wrote.
    for (i, reg) in bank.iter().enumerate() {
        if !(0..2).contains(&i) && !(8..10).contains(&i) {
            assert_eq!(*reg, [0u8; 4]);
        }
    }
}

#[test]
fn protected_bank_scenario() {
    // Bank of 3 registers, register 2 protected; registers hold a float, an
    // unsigned and a signed integer by out-of-band agreement.
    let secondary = UrapSecondary::new(vec![false, false, true]);
    let mut bank = fresh_bank(3);

    let write_req =
        encode_write_request(0, &[f32::INFINITY.to_le_bytes(), 42u32.to_le_bytes()]);
    let response = run_request(&secondary, &mut bank, &write_req);
    assert_eq!(response, vec![ACK]);

    let write_req = encode_write_request(2, &[(-1i32).to_le_bytes()]);
    let response = run_request(&secondary, &mut bank, &write_req);
    assert_eq!(check_ack(response[0]), Err(NakCode::IndexWriteProtected));
    assert_eq!(bank[2], [0; 4]); // register 2 keeps its prior value

    let read_req = encode_read_request(0, 3);
    let response = run_request(&secondary, &mut bank, &read_req);
    assert_eq!(check_ack(response[0]), Ok(()));
    let payload = &response[1..13];
    assert!(verify_read_payload(payload, response[13]));
    let regs = decode_read_payload(payload);
    assert_eq!(f32::from_le_bytes(regs[0]), f32::INFINITY);
    assert_eq!(u32::from_le_bytes(regs[1]), 42);
    assert_eq!(i32::from_le_bytes(regs[2]), 0);
}

#[test]
fn read_response_checksum_excludes_ack() {
    // The read response's CRC covers the register bytes alone, not the
    // leading ACK byte: checksumming the full response must not be zero
    // unless the ACK byte is skipped.
    let secondary = UrapSecondary::new(vec![false; 4]);
    let mut bank = fresh_bank(4);
    bank[1] = [0x11, 0x22, 0x33, 0x44];

    let read_req = encode_read_request(1, 1);
    let response = run_request(&secondary, &mut bank, &read_req);
    assert_eq!(response.len(), 6);
    assert_eq!(response[0], ACK);
    assert_eq!(&response[1..5], &[0x11, 0x22, 0x33, 0x44]);
    assert_eq!(response[5], urap::crc(0, &response[1..5]));
    assert_ne!(response[5], urap::crc(0, &response[..5]));
}
