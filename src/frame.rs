//! Layout of one feature report and the checks on the device's echo.
use vstd::prelude::*;

verus! {

/// Length of one feature report, report-id byte included.
pub const REPORT_LEN: usize = 65;

/// Longest command payload that fits behind the report-id byte, leaving the
/// last byte of the report free.
pub const MAX_PAYLOAD_LEN: usize = 63;

/// Offset of the status / echo field.
pub const STATUS_OFFSET: usize = 2;

/// Offset of the sequence-number field.
pub const SEQUENCE_OFFSET: usize = 3;

/// Status marker of a completed transaction.
pub const STATUS_DONE: u8 = 0x14;

/// An acknowledgment must report strictly more bytes than this.
pub const ACK_MIN_READ: usize = 4;

/// Why an echo was not accepted.
#[derive(Debug, Clone, Copy, PartialEq, Eq, Structural)]
pub enum ProtocolError {
    /// The read reported too few bytes, or more than the buffer holds.
    ShortRead { read: usize, min: usize },
    /// The status field did not carry the completion marker.
    BadStatus { found: u8, expected: u8 },
    /// The echoed sequence number is not the one that was sent.
    WrongSequence { found: u8, expected: u8 },
    /// The exchange was begun at another sequence number than the session's
    /// current one: an earlier exchange has completed since.
    OutOfTurn { exchange: u8, session: u8 },
}

/// The sequence number that follows `s`, wrapping from 255 to 0.
pub open spec fn next_seq(s: u8) -> u8 {
    ((s as int + 1) % 256) as u8
}

/// A zeroed report holding `payload` from offset 1 on.
pub open spec fn framed(payload: Seq<u8>) -> Seq<u8> {
    Seq::new(REPORT_LEN as nat, |i: int| if 1 <= i < 1 + payload.len() { payload[i - 1] } else { 0u8 })
}

/// The report sent for `payload` at sequence number `seq`.
pub open spec fn outbound(payload: Seq<u8>, seq: u8) -> Seq<u8> {
    framed(payload).update(SEQUENCE_OFFSET as int, seq)
}

/// Verdict on a response of which the device reported `read` bytes, for an
/// exchange sent with sequence number `sent`.
pub open spec fn echo_verdict(response: Seq<u8>, read: nat, sent: u8) -> Result<(), ProtocolError> {
    if read <= ACK_MIN_READ || read > response.len() {
        Err(ProtocolError::ShortRead { read: read as usize, min: ACK_MIN_READ })
    } else if response[STATUS_OFFSET as int] != STATUS_DONE {
        Err(ProtocolError::BadStatus { found: response[STATUS_OFFSET as int], expected: STATUS_DONE })
    } else if response[SEQUENCE_OFFSET as int] != sent {
        Err(ProtocolError::WrongSequence { found: response[SEQUENCE_OFFSET as int], expected: sent })
    } else {
        Ok(())
    }
}

/// Sequence number that follows `s`, wrapping from 255 to 0.
pub fn next_sequence(s: u8) -> (r: u8)
    ensures
        r == next_seq(s),
        r as int == (s as int + 1) % 256,
{
    if s == 255 {
        0
    } else {
        s + 1
    }
}

/// A zeroed report with `payload` copied in from offset 1.
pub fn frame_payload(payload: &[u8]) -> (r: Vec<u8>)
    requires
        payload@.len() <= MAX_PAYLOAD_LEN,
    ensures
        r@ == framed(payload@),
        r@.len() == REPORT_LEN,
        r@[0] == 0,
        forall|i: int| 0 <= i < payload@.len() ==> #[trigger] r@[1 + i] == payload@[i],
        forall|j: int| 1 + payload@.len() <= j < REPORT_LEN ==> #[trigger] r@[j] == 0,
{
    let mut buf: Vec<u8> = vec![0u8; REPORT_LEN];
    let mut i: usize = 0;
    while i < payload.len()
        invariant
            i <= payload@.len() <= MAX_PAYLOAD_LEN,
            buf@.len() == REPORT_LEN,
            forall|j: int| 0 <= j < REPORT_LEN ==> #[trigger] buf@[j] == (if 1 <= j < 1 + i { payload@[j - 1] } else { 0u8 }),
        decreases payload@.len() - i,
    {
        buf.set(i + 1, payload[i]);
        i = i + 1;
    }
    assert(buf@ =~= framed(payload@));
    buf
}

/// The report to send for `payload` at sequence number `seq`.
pub fn outbound_frame(payload: &[u8], seq: u8) -> (r: Vec<u8>)
    requires
        payload@.len() <= MAX_PAYLOAD_LEN,
    ensures
        r@ == outbound(payload@, seq),
{
    let mut buf = frame_payload(payload);
    buf.set(SEQUENCE_OFFSET, seq);
    buf
}

/// The buffer for the completion read that follows sending `sent`: the same
/// bytes with the status cleared and the next sequence number written.
pub fn poll_frame(sent: &[u8], seq: u8) -> (r: Vec<u8>)
    requires
        sent@.len() == REPORT_LEN,
    ensures
        r@ == sent@.update(STATUS_OFFSET as int, 0u8).update(SEQUENCE_OFFSET as int, next_seq(seq)),
{
    let mut buf: Vec<u8> = Vec::new();
    let mut i: usize = 0;
    while i < sent.len()
        invariant
            i <= sent@.len() == REPORT_LEN,
            buf@ == sent@.subrange(0, i as int),
        decreases sent@.len() - i,
    {
        buf.push(sent[i]);
        i = i + 1;
    }
    assert(buf@ =~= sent@);
    buf.set(STATUS_OFFSET, 0);
    buf.set(SEQUENCE_OFFSET, next_sequence(seq));
    buf
}

/// Checks the device's echo: more than `ACK_MIN_READ` bytes read (and no more
/// than the buffer holds), the completion marker in the status field, and the
/// sequence number `sent` echoed back.
pub fn check_echo(response: &[u8], read: usize, sent: u8) -> (r: Result<(), ProtocolError>)
    ensures
        r == echo_verdict(response@, read as nat, sent),
{
    if read <= ACK_MIN_READ || read > response.len() {
        Err(ProtocolError::ShortRead { read, min: ACK_MIN_READ })
    } else if response[STATUS_OFFSET] != STATUS_DONE {
        Err(ProtocolError::BadStatus { found: response[STATUS_OFFSET], expected: STATUS_DONE })
    } else if response[SEQUENCE_OFFSET] != sent {
        Err(ProtocolError::WrongSequence { found: response[SEQUENCE_OFFSET], expected: sent })
    } else {
        Ok(())
    }
}

} // verus!
