use urap::error::{error_of_nak, Error};
use urap::primary::{check_ack, decode_read_payload, encode_read_request, encode_write_request,
    verify_read_payload};
use urap::secondary::body_len;
use urap::{crc, NakCode, ACK};

#[test]
fn read_request_layout() {
    let req = encode_read_request(0x0102, 3);
    assert_eq!(req.len(), 4);
    assert_eq!(req[0], 0x02); // count - 1, write bit clear
    assert_eq!(req[1], 0x02); // address low byte
    assert_eq!(req[2], 0x01); // address high byte
    assert_eq!(req[3], crc(0, &req[..3]));
    assert_eq!(crc(0, &req), 0);
}

#[test]
fn read_request_all_zero() {
    // One register at address 0: every header byte is zero, and the CRC of
    // zeros is zero.
    assert_eq!(encode_read_request(0, 1), vec![0, 0, 0, 0]);
}

#[test]
fn write_request_layout() {
    let req = encode_write_request(0xBEEF, &[[1, 2, 3, 4], [5, 6, 7, 8]]);
    assert_eq!(req.len(), 12);
    assert_eq!(req[0], 0x81); // count - 1, write bit set
    assert_eq!(req[1], 0xEF);
    assert_eq!(req[2], 0xBE);
    assert_eq!(&req[3..11], &[1, 2, 3, 4, 5, 6, 7, 8]);
    assert_eq!(req[11], crc(0, &req[..11]));
    assert_eq!(crc(0, &req), 0);
}

#[test]
fn body_len_follows_head_byte() {
    assert_eq!(body_len(0x00), 1); // read, any count: the CRC byte alone
    assert_eq!(body_len(0x7F), 1);
    assert_eq!(body_len(0x80), 4 + 1); // write, 1 register
    assert_eq!(body_len(0x83), 16 + 1); // write, 4 registers
    assert_eq!(body_len(0xFF), 512 + 1); // write, 128 registers
}

#[test]
fn ack_byte_accepted() {
    assert!(check_ack(ACK).is_ok());
}

#[test]
fn nak_bytes_decode_to_codes() {
    assert_eq!(check_ack(0), Err(NakCode::Unknown));
    assert_eq!(check_ack(1), Err(NakCode::SecondaryFailure));
    assert_eq!(check_ack(2), Err(NakCode::BadCrc));
    assert_eq!(check_ack(3), Err(NakCode::OutOfBounds));
    assert_eq!(check_ack(4), Err(NakCode::IncompletePacket));
    assert_eq!(check_ack(5), Err(NakCode::IndexWriteProtected));
    assert_eq!(check_ack(6), Err(NakCode::CountExceedsBounds));
    // A byte outside the enumeration decodes to Unknown, not to a failure.
    assert_eq!(check_ack(0x99), Err(NakCode::Unknown));
    assert_eq!(NakCode::from(200), NakCode::Unknown);
    assert_eq!(NakCode::from(6), NakCode::CountExceedsBounds);
}

#[test]
fn nak_codes_round_trip_through_their_byte() {
    let codes = [
        NakCode::Unknown,
        NakCode::SecondaryFailure,
        NakCode::BadCrc,
        NakCode::OutOfBounds,
        NakCode::IncompletePacket,
        NakCode::IndexWriteProtected,
        NakCode::CountExceedsBounds,
    ];
    for code in codes {
        assert_eq!(NakCode::from(code.to_byte()), code);
    }
}

#[test]
fn read_payload_verification() {
    let data: [u8; 8] = [9, 8, 7, 6, 5, 4, 3, 2];
    let good = crc(0, &data);
    assert!(verify_read_payload(&data, good));
    assert!(!verify_read_payload(&data, good ^ 0x01));
    let mut tampered = data;
    tampered[3] ^= 0x10;
    assert!(!verify_read_payload(&tampered, good));
}

#[test]
fn read_payload_decodes_to_registers() {
    let regs = decode_read_payload(&[1, 2, 3, 4, 5, 6, 7, 8]);
    assert_eq!(regs, vec![[1, 2, 3, 4], [5, 6, 7, 8]]);
    assert_eq!(decode_read_payload(&[]), Vec::<[u8; 4]>::new());
}

#[test]
fn errors_of_nak_codes() {
    assert_eq!(error_of_nak::<()>(NakCode::Unknown, 1, 9), Error::Nak(NakCode::Unknown));
    assert_eq!(error_of_nak::<()>(NakCode::SecondaryFailure, 1, 9), Error::SecondaryFailure);
    assert_eq!(error_of_nak::<()>(NakCode::BadCrc, 1, 9), Error::BadCrc);
    assert_eq!(error_of_nak::<()>(NakCode::OutOfBounds, 1, 9), Error::OutOfBounds(9));
    assert_eq!(error_of_nak::<()>(NakCode::IncompletePacket, 1, 9), Error::IncompletePacket);
    assert_eq!(
        error_of_nak::<()>(NakCode::IndexWriteProtected, 2, 9),
        Error::IndexWriteProtected(2, 9),
    );
    assert_eq!(
        error_of_nak::<()>(NakCode::CountExceedsBounds, 2, 9),
        Error::CountExceedsBounds(2, 9),
    );
}
