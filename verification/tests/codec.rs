use mblp::arrays::{byte_in_window, window};
use mblp::checksum::crc;
use mblp::code::{expected_response_len, Code, NO_CODE};
use mblp::command::{Command, MAX_COMMAND_PAYLOAD};
use mblp::response::{Response, ResponseType, MAX_RESPONSE_PAYLOAD};
use mblp::wire::{put_bytes, HEADER_LENGTH, NORMAL_COMMAND, PREAMBLE, PROBE_ID_COMMAND, RESPONSE_HEADER_LENGTH};

fn command_frame(code: Code, source: [u8; 4], destination: [u8; 4], data: &[u8]) -> Vec<u8> {
    let mut buffer = [0u8; 256];
    let len = Command::new(code, source, destination, data).serialize(&mut buffer);
    buffer[0..len].to_vec()
}

fn response_frame(response: Response) -> Vec<u8> {
    let mut buffer = [0u8; 256];
    let len = response.serialize(&mut buffer);
    buffer[0..len].to_vec()
}

#[test]
fn crc_is_the_wrapping_sum() {
    assert_eq!(crc(&[]), 0);
    assert_eq!(crc(&[1, 2, 3]), 6);
    assert_eq!(crc(&[0xFF, 0x02]), 0x01);
    assert_eq!(crc(&[0x80, 0x80]), 0x00);
    let all: Vec<u8> = (0..=255u8).collect();
    assert_eq!(crc(&all), 0x80);
}

#[test]
fn crc_misses_a_swap_of_two_bytes() {
    assert_eq!(crc(&[1, 2, 3, 4]), crc(&[1, 4, 3, 2]));
    let mut frame = command_frame(Code::SetOutput, [0; 4], [1, 2, 3, 4], &[2, 1]);
    assert!(Command::parse(&frame).is_some());
    frame.swap(14, 15);
    let read = Command::parse(&frame).unwrap();
    assert_eq!(&read.data[0..2], &[1, 2]);
}

#[test]
fn constants_of_the_wire() {
    assert_eq!(PREAMBLE, 0x02);
    assert_eq!(NORMAL_COMMAND, 0x01);
    assert_eq!(PROBE_ID_COMMAND, 0x00);
    assert_eq!(HEADER_LENGTH, 15);
    assert_eq!(RESPONSE_HEADER_LENGTH, 14);
    assert_eq!(Command::MIN_PACKET_LEN, 15);
    assert_eq!(Response::MIN_PACKET_LEN, 14);
    assert_eq!(MAX_COMMAND_PAYLOAD, 240);
    assert_eq!(MAX_RESPONSE_PAYLOAD, 241);
}

#[test]
fn expected_lengths_follow_the_table() {
    assert_eq!(expected_response_len(Code::SetOutput), 14);
    assert_eq!(expected_response_len(Code::ReadFWVersion), 18);
    assert_eq!(expected_response_len(Code::ReadAddress), 18);
    assert_eq!(expected_response_len(Code::SetAddress), 15);
    assert_eq!(expected_response_len(Code::ReadInput), 15);
    assert_eq!(expected_response_len(Code::Unknown(0x12, 0x34)), 0);
    assert_eq!(expected_response_len(Code::Unknown(0xFF, 0xFF)), 0);
}

#[test]
fn codes_follow_the_table() {
    assert_eq!(Code::from(0x0101u16), Code::ReadInput);
    assert_eq!(Code::from(0xFF01u16), Code::SetOutput);
    assert_eq!(Code::from(0xFF03u16), Code::SetAddress);
    assert_eq!(Code::from(0xFF04u16), Code::ReadAddress);
    assert_eq!(Code::from(0x400Au16), Code::ReadFWVersion);
    assert_eq!(Code::from(0x1234u16), Code::Unknown(0x12, 0x34));
    assert_eq!(Code::from((0x40u8, 0x0Au8)), Code::ReadFWVersion);
    assert_eq!(Code::from((0xABu8, 0xCDu8)), Code::Unknown(0xAB, 0xCD));
    assert_eq!(u16::from(Code::ReadInput), 0x0101);
    assert_eq!(u16::from(Code::SetOutput), 0xFF01);
    assert_eq!(u16::from(Code::SetAddress), 0xFF03);
    assert_eq!(u16::from(Code::ReadAddress), 0xFF04);
    assert_eq!(u16::from(Code::ReadFWVersion), 0x400A);
    let value: u16 = Code::Unknown(0x12, 0x34).into();
    assert_eq!(value, 0x1234);
}

#[test]
fn every_value_survives_as_a_code() {
    for value in 0..=u16::MAX {
        assert_eq!(u16::from(Code::from(value)), value);
    }
}

#[test]
fn unknown_code_with_a_table_value_is_sent_as_the_sentinel() {
    assert_eq!(NO_CODE, 0xFFFF);
    assert_eq!(u16::from(Code::Unknown(0x01, 0x01)), 0xFFFF);
    assert_eq!(u16::from(Code::Unknown(0x40, 0x0A)), 0xFFFF);
    assert_eq!(Code::from(u16::from(Code::Unknown(0xFF, 0x04))), Code::Unknown(0xFF, 0xFF));
}

#[test]
fn read_address_command_is_fifteen_bytes() {
    let command = Command::new(Code::ReadAddress, [0, 0, 0, 0], [0x14, 0x03, 0x01, 0x00], &[]);
    let mut buffer = [0u8; 256];
    let len = command.serialize(&mut buffer);
    assert_eq!(len, 15);
    assert_eq!(buffer[2], 15);
    assert_eq!(buffer[14], crc(&buffer[0..14]));
    assert_eq!(
        &buffer[0..15],
        &[0x02, 0x01, 0x0F, 0x00, 0x14, 0x03, 0x01, 0x00, 0, 0, 0, 0, 0xFF, 0x04, 0x2D]
    );
}

#[test]
fn serialize_leaves_the_rest_of_the_buffer() {
    let mut buffer = [0xEEu8; 32];
    let len = Command::new(Code::SetOutput, [9, 8, 7, 6], [1, 2, 3, 4], &[3, 1]).serialize(&mut buffer);
    assert_eq!(len, 17);
    assert_eq!(
        &buffer[0..17],
        &[0x02, 0x01, 0x11, 0x00, 1, 2, 3, 4, 9, 8, 7, 6, 0xFF, 0x01, 3, 1, 0x40]
    );
    assert!(buffer[17..].iter().all(|b| *b == 0xEE));
}

#[test]
fn new_command_pads_with_zeros() {
    let command = Command::new(Code::ReadInput, [1, 1, 1, 1], [2, 2, 2, 2], &[7, 8, 9]);
    assert_eq!(command.data_len, 3);
    assert_eq!(command.source, [1, 1, 1, 1]);
    assert_eq!(command.destination, [2, 2, 2, 2]);
    assert_eq!(command.code, Code::ReadInput);
    assert_eq!(&command.data[0..3], &[7, 8, 9]);
    assert!(command.data[3..].iter().all(|b| *b == 0));
}

#[test]
fn command_round_trip_for_every_kind_of_code() {
    let codes = [
        Code::ReadInput,
        Code::SetOutput,
        Code::SetAddress,
        Code::ReadAddress,
        Code::ReadFWVersion,
        Code::Unknown(0x12, 0x34),
        Code::Unknown(0x00, 0x00),
        Code::Unknown(0xFF, 0xFF),
    ];
    let payload: Vec<u8> = (0..240u16).map(|i| (i * 7 + 3) as u8).collect();
    for code in codes {
        for len in [0usize, 1, 2, 4, 100, 240] {
            let frame = command_frame(code, [5, 6, 7, 8], [1, 2, 3, 4], &payload[0..len]);
            assert_eq!(frame.len(), 15 + len);
            assert_eq!(frame[2] as usize, 15 + len);
            let read = Command::parse(&frame).unwrap();
            assert_eq!(read.code, code);
            assert_eq!(read.destination, [1, 2, 3, 4]);
            assert_eq!(read.source, [5, 6, 7, 8]);
            assert_eq!(read.data_len as usize, len);
            assert_eq!(&read.data[0..len], &payload[0..len]);
            assert!(read.data[len..].iter().all(|b| *b == 0));
        }
    }
}

#[test]
fn parse_does_not_look_past_the_frame() {
    let mut buffer = command_frame(Code::SetOutput, [0; 4], [1, 2, 3, 4], &[2, 1]);
    buffer.extend_from_slice(&[0xAA, 0xBB, 0xCC]);
    let read = Command::parse(&buffer).unwrap();
    assert_eq!(read.data_len, 2);
    assert_eq!(&read.data[0..2], &[2, 1]);
    assert!(read.data[2..].iter().all(|b| *b == 0));

    let mut reply = response_frame(Response::ok([0; 4], [1, 2, 3, 4], &[9]));
    reply.extend_from_slice(&[0xAA, 0xBB, 0xCC]);
    let read = Response::parse(&reply).unwrap();
    assert_eq!(read.data_len, 1);
    assert!(read.data[1..].iter().all(|b| *b == 0));
}

#[test]
fn command_parse_rejects_what_is_no_frame() {
    let frame = command_frame(Code::ReadInput, [0; 4], [1, 2, 3, 4], &[1, 2, 3]);
    assert!(Command::parse(&frame).is_some());
    assert!(Command::parse(&[]).is_none());
    assert!(Command::parse(&frame[0..14]).is_none());
    assert!(Command::parse(&frame[0..17]).is_none());
    let mut bad = frame.clone();
    bad[0] = 0x03;
    assert!(Command::parse(&bad).is_none());
    let mut bad = frame.clone();
    bad[2] = 14;
    assert!(Command::parse(&bad).is_none());
    let mut bad = frame.clone();
    bad[17] = bad[17].wrapping_add(1);
    assert!(Command::parse(&bad).is_none());
    // Byte 1 is not looked at in a command.
    let mut other = frame.clone();
    other[1] = 0x00;
    other[17] = other[17].wrapping_sub(1);
    assert!(Command::parse(&other).is_some());
}

#[test]
fn any_changed_byte_makes_a_command_rejected() {
    let frame = command_frame(Code::SetOutput, [0; 4], [0x14, 0x03, 0x01, 0x00], &[2, 1]);
    assert_eq!(frame.len(), 17);
    for i in 0..frame.len() - 1 {
        for value in 0..=255u8 {
            if value == frame[i] {
                continue;
            }
            let mut changed = frame.clone();
            changed[i] = value;
            // The one way past the checksum: a length lowered to one at which
            // the sum holds again.
            let cut_short = i == 2
                && (15..frame[2]).contains(&value)
                && changed[value as usize - 1] == crc(&changed[0..value as usize - 1]);
            assert_eq!(Command::parse(&changed).is_some(), cut_short, "byte {} to {}", i, value);
        }
    }
}

#[test]
fn lowered_length_can_pass_the_checksum() {
    // The payload byte is the sum of the 14 bytes before it once the length
    // reads 15.
    let head = [0x02u8, 0x01, 0x0F, 0x00, 1, 2, 3, 4, 0, 0, 0, 0, 0x01, 0x01];
    let sum = crc(&head);
    let frame = command_frame(Code::ReadInput, [0; 4], [1, 2, 3, 4], &[sum]);
    assert_eq!(frame[2], 16);
    let mut changed = frame.clone();
    changed[2] = 15;
    let read = Command::parse(&changed).unwrap();
    assert_eq!(read.data_len, 0);
}

#[test]
fn usual_response_layout() {
    let frame = response_frame(Response::ok([0, 0, 0, 0], [0x14, 0x03, 0x01, 0x00], &[0x04]));
    assert_eq!(
        frame,
        vec![0x02, 0x01, 0x0F, 0x00, 0, 0, 0, 0, 0x14, 0x03, 0x01, 0x00, 0x00, 0x04, 0x2E]
    );
    let frame = response_frame(Response::err([9, 9, 9, 9], [1, 2, 3, 4], &[]));
    assert_eq!(frame, vec![0x02, 0x01, 0x0E, 0x00, 9, 9, 9, 9, 1, 2, 3, 4, 0x01, 0x40]);
}

#[test]
fn usual_response_reads_back_without_error_flag() {
    let reply = Response::err([1, 2, 3, 4], [5, 6, 7, 8], &[9, 10]);
    assert!(reply.error);
    let mut buffer = [0u8; 64];
    let len = reply.serialize(&mut buffer);
    assert_eq!(len, 16);
    assert_eq!(buffer[12], 1);
    let read = Response::parse(&buffer[0..len]).unwrap();
    assert!(!read.error);
    assert!(matches!(read.response_type, ResponseType::Usual));
    assert_eq!(read.destination, [1, 2, 3, 4]);
    assert_eq!(read.source, [5, 6, 7, 8]);
    assert_eq!(read.data_len, 2);
    assert_eq!(&read.data[0..2], &[9, 10]);
    assert!(read.data[2..].iter().all(|b| *b == 0));
}

#[test]
fn response_round_trip_up_to_the_longest_payload() {
    let payload: Vec<u8> = (0..241u16).map(|i| (i * 5 + 1) as u8).collect();
    for len in [0usize, 1, 4, 17, 240, 241] {
        let frame = response_frame(Response::ok([1, 2, 3, 4], [5, 6, 7, 8], &payload[0..len]));
        assert_eq!(frame.len(), 14 + len);
        let read = Response::parse(&frame).unwrap();
        assert!(!read.error);
        assert_eq!(read.destination, [1, 2, 3, 4]);
        assert_eq!(read.source, [5, 6, 7, 8]);
        assert_eq!(read.data_len as usize, len);
        assert_eq!(&read.data[0..len], &payload[0..len]);
    }
}

#[test]
fn parsing_twice_gives_equal_responses() {
    let frame = response_frame(Response::ok([1, 2, 3, 4], [5, 6, 7, 8], &[1, 2, 3]));
    let first = Response::parse(&frame).unwrap();
    let second = Response::parse(&frame).unwrap();
    assert_eq!(first.data_len, second.data_len);
    assert_eq!(first.destination, second.destination);
    assert_eq!(first.source, second.source);
    assert_eq!(first.error, second.error);
    assert!(matches!(first.response_type, ResponseType::Usual));
    assert!(matches!(second.response_type, ResponseType::Usual));
    assert_eq!(first.data, second.data);
}

#[test]
fn response_parse_rejects_what_is_no_frame() {
    let frame = response_frame(Response::ok([1, 2, 3, 4], [5, 6, 7, 8], &[1, 2, 3]));
    assert!(Response::parse(&frame).is_some());
    assert!(Response::parse(&[]).is_none());
    assert!(Response::parse(&frame[0..13]).is_none());
    assert!(Response::parse(&frame[0..16]).is_none());
    let mut bad = frame.clone();
    bad[0] = 0x00;
    assert!(Response::parse(&bad).is_none());
    let mut bad = frame.clone();
    bad[2] = 13;
    assert!(Response::parse(&bad).is_none());
    // Byte 1 must be 0x01, even where the checksum is made to hold.
    let mut bad = frame.clone();
    bad[1] = 0x00;
    bad[16] = bad[16].wrapping_sub(1);
    assert!(Response::parse(&bad).is_none());
}

#[test]
fn any_changed_byte_makes_a_response_rejected() {
    let frame = response_frame(Response::ok([0; 4], [0x14, 0x03, 0x01, 0x00], &[0x08]));
    assert_eq!(frame.len(), 15);
    for i in 0..frame.len() - 1 {
        for value in 0..=255u8 {
            if value == frame[i] {
                continue;
            }
            let mut changed = frame.clone();
            changed[i] = value;
            let cut_short = i == 2
                && (14..frame[2]).contains(&value)
                && changed[value as usize - 1] == crc(&changed[0..value as usize - 1]);
            assert_eq!(Response::parse(&changed).is_some(), cut_short, "byte {} to {}", i, value);
        }
    }
}

#[test]
fn cpu_id_reply_is_eighteen_bytes() {
    let reply = Response {
        data_len: 3,
        destination: [1, 2, 3, 4],
        source: [5, 6, 7, 8],
        error: true,
        response_type: ResponseType::CpuID,
        data: [0xAA; 256],
    };
    let frame = response_frame(reply);
    assert_eq!(
        frame,
        vec![0x02, 0x00, 0x12, 0x00, 1, 2, 3, 4, 5, 6, 7, 8, 0, 5, 6, 7, 8, 0x52]
    );
    assert_eq!(frame[17], crc(&frame[0..17]));
    // It is never read: its second byte is not that of a usual reply.
    assert!(Response::parse(&frame).is_none());
}

#[test]
fn legacy_cipher_reply_is_twenty_two_bytes() {
    let reply = Response {
        data_len: 0,
        destination: [1, 2, 3, 4],
        source: [5, 6, 7, 8],
        error: false,
        response_type: ResponseType::LegacyCipher,
        data: [0; 256],
    };
    let mut buffer = [0x77u8; 40];
    let len = reply.serialize(&mut buffer);
    assert_eq!(len, 22);
    assert_eq!(
        &buffer[0..22],
        &[0x02, 0x01, 0x16, 0x00, 1, 2, 3, 4, 5, 6, 7, 8, 0, 33, 1, 5, 5, 4, 2, 255, 37, 0x93]
    );
    assert_eq!(buffer[21], crc(&buffer[0..21]));
    assert!(buffer[22..].iter().all(|b| *b == 0x77));
}

#[test]
fn windows_are_cut_and_padded() {
    let bytes = [10u8, 11, 12, 13, 14, 15];
    let four: [u8; 4] = window(&bytes, 1, 4);
    assert_eq!(four, [11, 12, 13, 14]);
    let eight: [u8; 8] = window(&bytes, 4, 2);
    assert_eq!(eight, [14, 15, 0, 0, 0, 0, 0, 0]);
    let none: [u8; 3] = window(&bytes, 6, 0);
    assert_eq!(none, [0, 0, 0]);
    assert_eq!(byte_in_window(&bytes, 2, 3, 0), 12);
    assert_eq!(byte_in_window(&bytes, 2, 3, 2), 14);
    assert_eq!(byte_in_window(&bytes, 2, 3, 3), 0);
}

#[test]
fn put_bytes_overlays_a_range() {
    let mut buffer = [0u8; 8];
    put_bytes(&mut buffer, 2, &[1, 2, 3, 4], 3);
    assert_eq!(buffer, [0, 0, 1, 2, 3, 0, 0, 0]);
    put_bytes(&mut buffer, 7, &[9], 1);
    assert_eq!(buffer, [0, 0, 1, 2, 3, 0, 0, 9]);
    put_bytes(&mut buffer, 8, &[9], 0);
    assert_eq!(buffer, [0, 0, 1, 2, 3, 0, 0, 9]);
}
