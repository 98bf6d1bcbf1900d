use keyboard_hid::{
    check_echo, decimal_string, decode_firmware_response, dotted_version, firmware_query_payload,
    frame_payload, is_target_device, next_sequence, outbound_frame, poll_frame,
    session_init_payload, trigger_payload, DecodeError, Exchange, ProtocolError, Session,
    FIRMWARE_MIN_READ, REPORT_LEN, STATUS_DONE,
};

/// A 65-byte reply with the given status and echoed sequence number.
fn reply(status: u8, sequence: u8) -> Vec<u8> {
    let mut r = vec![0u8; REPORT_LEN];
    r[2] = status;
    r[3] = sequence;
    r
}

fn run(session: &mut Session, payload: &[u8], response: &[u8], read: usize) -> (Exchange, Result<(), ProtocolError>) {
    let ex = session.begin(payload);
    let r = session.finish(&ex, response, read);
    (ex, r)
}

#[test]
fn counter_advances_after_every_accepted_echo_and_wraps() {
    let mut s = Session::new();
    let payload = trigger_payload();
    for k in 0..=300u32 {
        let seq = (k % 256) as u8;
        assert_eq!(s.sequence(), seq);
        let (_, r) = run(&mut s, &payload, &reply(STATUS_DONE, seq), REPORT_LEN);
        assert_eq!(r, Ok(()));
        assert_eq!(s.sequence() as u32, (seq as u32 + 1) % 256);
    }
}

#[test]
fn wraparound_from_255_to_0() {
    let mut s = Session::new();
    let payload = session_init_payload();
    for seq in 0..=255u8 {
        let (_, r) = run(&mut s, &payload, &reply(STATUS_DONE, seq), REPORT_LEN);
        assert_eq!(r, Ok(()));
    }
    assert_eq!(s.sequence(), 0);
    assert_eq!(next_sequence(255), 0);
    assert_eq!(next_sequence(0), 1);
    assert_eq!(next_sequence(41), 42);
}

#[test]
fn bad_status_is_rejected_whatever_the_payload() {
    for payload in [session_init_payload(), trigger_payload(), firmware_query_payload(), vec![]] {
        for status in [0x00u8, 0x13, 0x15, 0xFF] {
            let mut s = Session::new();
            let (_, r) = run(&mut s, &payload, &reply(status, 0), REPORT_LEN);
            assert_eq!(r, Err(ProtocolError::BadStatus { found: status, expected: STATUS_DONE }));
            assert_eq!(s.sequence(), 0);
        }
    }
}

#[test]
fn wrong_echoed_sequence_is_rejected() {
    let mut s = Session::new();
    let payload = session_init_payload();
    let (_, r) = run(&mut s, &payload, &reply(STATUS_DONE, 0), REPORT_LEN);
    assert_eq!(r, Ok(()));
    for echoed in [0u8, 2, 200, 255] {
        let (_, r) = run(&mut s, &payload, &reply(STATUS_DONE, echoed), REPORT_LEN);
        assert_eq!(r, Err(ProtocolError::WrongSequence { found: echoed, expected: 1 }));
        assert_eq!(s.sequence(), 1);
    }
}

#[test]
fn short_read_is_rejected() {
    let mut s = Session::new();
    let payload = trigger_payload();
    for read in [0usize, 3, 4] {
        let (_, r) = run(&mut s, &payload, &reply(STATUS_DONE, 0), read);
        assert_eq!(r, Err(ProtocolError::ShortRead { read, min: 4 }));
    }
    let (_, r) = run(&mut s, &payload, &reply(STATUS_DONE, 0), REPORT_LEN + 1);
    assert_eq!(r, Err(ProtocolError::ShortRead { read: REPORT_LEN + 1, min: 4 }));
    assert_eq!(s.sequence(), 0);
    let (_, r) = run(&mut s, &payload, &reply(STATUS_DONE, 0), 5);
    assert_eq!(r, Ok(()));
}

#[test]
fn check_echo_order_of_checks() {
    let r = reply(0x00, 9);
    assert_eq!(check_echo(&r, 2, 9), Err(ProtocolError::ShortRead { read: 2, min: 4 }));
    assert_eq!(check_echo(&r, 65, 9), Err(ProtocolError::BadStatus { found: 0, expected: 0x14 }));
    let r = reply(0x14, 9);
    assert_eq!(check_echo(&r, 65, 8), Err(ProtocolError::WrongSequence { found: 9, expected: 8 }));
    assert_eq!(check_echo(&r, 65, 9), Ok(()));
}

#[test]
fn decode_firmware_one_two_three_four() {
    let mut r = vec![0xAAu8; REPORT_LEN];
    r[4] = 1;
    r[5] = 2;
    r[6] = 3;
    r[7] = 4;
    assert_eq!(decode_firmware_response(&r, REPORT_LEN), Ok("1.2.3.4".to_string()));
}

#[test]
fn decode_firmware_multi_digit_parts() {
    let mut r = vec![0u8; REPORT_LEN];
    r[4] = 255;
    r[5] = 10;
    r[6] = 0;
    r[7] = 107;
    assert_eq!(decode_firmware_response(&r, 9), Ok("255.10.0.107".to_string()));
}

#[test]
fn decode_firmware_short_reply() {
    let r = vec![1u8; REPORT_LEN];
    assert_eq!(
        decode_firmware_response(&r, FIRMWARE_MIN_READ),
        Err(DecodeError::ShortResponse { read: 8, min: 8 })
    );
    assert_eq!(decode_firmware_response(&r[..8], 9), Err(DecodeError::ShortResponse { read: 9, min: 8 }));
    assert!(decode_firmware_response(&r, 9).is_ok());
}

#[test]
fn decimal_rendering() {
    assert_eq!(decimal_string(0), "0");
    assert_eq!(decimal_string(7), "7");
    assert_eq!(decimal_string(42), "42");
    assert_eq!(decimal_string(100), "100");
    assert_eq!(decimal_string(255), "255");
    assert_eq!(dotted_version(2, 0, 5, 7), "2.0.5.7");
}

#[test]
fn framing_of_session_init_payload() {
    let payload = session_init_payload();
    let l = payload.len();
    assert_eq!(&payload[..3], &[0x00, 0x13, 0x00]);
    let buf = frame_payload(&payload);
    assert_eq!(buf.len(), 65);
    assert_eq!(buf[0], 0);
    assert_eq!(&buf[1..1 + l], &payload[..]);
    assert!(buf[1 + l..].iter().all(|&b| b == 0));
}

#[test]
fn framing_of_longest_payload() {
    let mut payload = vec![0x00u8, 0x13, 0x00];
    payload.resize(63, 0x5A);
    let buf = frame_payload(&payload);
    assert_eq!(buf[0], 0);
    assert_eq!(&buf[1..64], &payload[..]);
    assert_eq!(buf[64], 0);
}

#[test]
fn framing_of_empty_payload() {
    assert_eq!(frame_payload(&[]), vec![0u8; 65]);
}

#[test]
fn outbound_and_poll_frames() {
    let payload = firmware_query_payload();
    let out = outbound_frame(&payload, 7);
    assert_eq!(out[1], 0x00);
    assert_eq!(out[2], 0x11);
    assert_eq!(out[3], 7);
    assert_eq!(&out[4..36], &payload[3..]);
    let poll = poll_frame(&out, 7);
    assert_eq!(poll[2], 0);
    assert_eq!(poll[3], 8);
    assert_eq!(&poll[4..], &out[4..]);
    assert_eq!(poll_frame(&outbound_frame(&payload, 255), 255)[3], 0);
}

#[test]
fn exchange_carries_report_and_sequence() {
    let s = Session::new();
    let payload = trigger_payload();
    let ex = s.begin(&payload);
    assert_eq!(ex.sequence(), 0);
    assert_eq!(ex.report(), &outbound_frame(&payload, 0)[..]);
    let poll = ex.poll_buffer();
    assert_eq!(poll[2], 0);
    assert_eq!(poll[3], 1);
}

#[test]
fn payload_bytes() {
    let init = session_init_payload();
    assert_eq!(init.len(), 35);
    assert_eq!(&init[3..], b"MCIQFIFEDLH9F4AECX916PBD5P3A3078");
    let fw = firmware_query_payload();
    assert_eq!(&fw[..3], &[0x00, 0x11, 0x06]);
    assert_eq!(&fw[3..], &init[3..]);
    let t = trigger_payload();
    assert_eq!(t.len(), 32);
    assert_eq!(&t[..4], &[0, 45, 0, 15]);
    assert!(t[4..].iter().all(|&b| b == 0xFF));
}

#[test]
fn end_to_end_init_then_firmware_query() {
    let mut s = Session::new();
    let (ex, r) = run(&mut s, &session_init_payload(), &reply(0x14, 0), REPORT_LEN);
    assert_eq!(ex.sequence(), 0);
    assert_eq!(r, Ok(()));
    assert_eq!(s.sequence(), 1);
    let (ex, r) = run(&mut s, &firmware_query_payload(), &reply(0x14, 1), REPORT_LEN);
    assert_eq!(ex.sequence(), 1);
    assert_eq!(r, Ok(()));
    assert_eq!(s.sequence(), 2);
    let mut version = vec![0u8; REPORT_LEN];
    version[4..8].copy_from_slice(&[2, 0, 5, 7]);
    assert_eq!(decode_firmware_response(&version, REPORT_LEN), Ok("2.0.5.7".to_string()));
}

#[test]
fn second_exchange_sees_sequence_only_after_first_validates() {
    let mut s = Session::new();
    let payload = trigger_payload();
    let first = s.begin(&payload);
    let early = s.begin(&payload);
    assert_eq!(early.sequence(), 0);
    assert_eq!(s.finish(&first, &reply(0x14, 0), REPORT_LEN), Ok(()));
    assert_eq!(
        s.finish(&early, &reply(0x14, 0), REPORT_LEN),
        Err(ProtocolError::OutOfTurn { exchange: 0, session: 1 })
    );
    assert_eq!(s.sequence(), 1);
    let second = s.begin(&payload);
    assert_eq!(second.sequence(), 1);
    assert_eq!(s.finish(&second, &reply(0x14, 1), REPORT_LEN), Ok(()));
    assert_eq!(s.sequence(), 2);
}

#[test]
fn failed_exchange_keeps_counter_for_the_next() {
    let mut s = Session::new();
    let payload = trigger_payload();
    let (_, r) = run(&mut s, &payload, &reply(0x00, 0), REPORT_LEN);
    assert!(r.is_err());
    let next = s.begin(&payload);
    assert_eq!(next.sequence(), 0);
}

#[test]
fn target_device_match() {
    assert!(is_target_device(0x24f0, 0x2020, 2));
    assert!(!is_target_device(0x24f0, 0x2020, 0));
    assert!(!is_target_device(0x24f1, 0x2020, 2));
    assert!(!is_target_device(0x24f0, 0x2021, 2));
}
