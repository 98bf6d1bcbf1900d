//! The session: the rolling sequence counter and the two phases of one
//! exchange (send, then validate the echo).
use vstd::prelude::*;
use crate::frame::{
    check_echo, echo_verdict, next_seq, next_sequence, outbound, outbound_frame, poll_frame,
    ProtocolError, MAX_PAYLOAD_LEN, REPORT_LEN, SEQUENCE_OFFSET, STATUS_DONE, STATUS_OFFSET,
};

verus! {

/// The protocol state of one open device: the sequence number that the next
/// exchange will carry.
#[derive(Debug)]
pub struct Session {
    sequence: u8,
}

/// One exchange that has been framed and not yet validated: the sequence
/// number it was sent with and the report that went out.
#[derive(Debug)]
pub struct Exchange {
    sequence: u8,
    report: Vec<u8>,
}

/// What completing exchange `sent` against a session whose counter is
/// `counter` yields, given the response buffer and the reported byte count.
pub open spec fn completion(counter: u8, sent: u8, response: Seq<u8>, read: nat) -> Result<(), ProtocolError> {
    if sent != counter {
        Err(ProtocolError::OutOfTurn { exchange: sent, session: counter })
    } else {
        echo_verdict(response, read, sent)
    }
}

impl Session {
    /// The sequence number the next exchange carries.
    pub closed spec fn counter(&self) -> u8 {
        self.sequence
    }

    /// A fresh session, starting at sequence number 0.
    pub fn new() -> (s: Session)
        ensures
            s.counter() == 0,
    {
        Session { sequence: 0 }
    }

    /// The sequence number the next exchange carries.
    pub fn sequence(&self) -> (r: u8)
        ensures
            r == self.counter(),
    {
        self.sequence
    }

    /// Frames `payload` into a report tagged with the current sequence
    /// number. The counter does not move until the echo is validated.
    pub fn begin(&self, payload: &[u8]) -> (ex: Exchange)
        requires
            payload@.len() <= MAX_PAYLOAD_LEN,
        ensures
            ex.sent() == self.counter(),
            ex.report_view() == outbound(payload@, self.counter()),
    {
        Exchange { sequence: self.sequence, report: outbound_frame(payload, self.sequence) }
    }

    /// Validates the response to `ex`, of which the device reported `read`
    /// bytes. The counter advances by one (mod 256) exactly when the echo is
    /// accepted; on any error it stays where it was.
    pub fn finish(&mut self, ex: &Exchange, response: &[u8], read: usize) -> (r: Result<(), ProtocolError>)
        ensures
            r == completion(old(self).counter(), ex.sent(), response@, read as nat),
            r is Ok ==> final(self).counter() as int == (old(self).counter() as int + 1) % 256,
            r is Err ==> final(self).counter() == old(self).counter(),
    {
        if ex.sequence != self.sequence {
            return Err(ProtocolError::OutOfTurn { exchange: ex.sequence, session: self.sequence });
        }
        let r = check_echo(response, read, ex.sequence);
        if r.is_ok() {
            self.sequence = next_sequence(self.sequence);
        }
        r
    }
}

impl Exchange {
    /// The sequence number this exchange was sent with.
    pub closed spec fn sent(&self) -> u8 {
        self.sequence
    }

    /// The report this exchange sends.
    pub closed spec fn report_view(&self) -> Seq<u8> {
        self.report@
    }

    /// The sequence number this exchange was sent with.
    pub fn sequence(&self) -> (r: u8)
        ensures
            r == self.sent(),
    {
        self.sequence
    }

    /// The report to transmit.
    pub fn report(&self) -> (r: &[u8])
        ensures
            r@ == self.report_view(),
    {
        self.report.as_slice()
    }

    /// The buffer to hand to the completion read: the sent report with the
    /// status field cleared and the following sequence number written.
    pub fn poll_buffer(&self) -> (r: Vec<u8>)
        requires
            self.report_view().len() == REPORT_LEN,
        ensures
            r@ == self.report_view().update(STATUS_OFFSET as int, 0u8).update(
                SEQUENCE_OFFSET as int,
                next_seq(self.sent()),
            ),
    {
        poll_frame(self.report.as_slice(), self.sequence)
    }
}

/// A response whose status field is not the completion marker is rejected,
/// whatever the payload, the byte count or the sequence numbers.
pub proof fn lemma_bad_status_rejected(counter: u8, sent: u8, response: Seq<u8>, read: nat)
    requires
        response.len() > STATUS_OFFSET,
        response[STATUS_OFFSET as int] != STATUS_DONE,
    ensures
        completion(counter, sent, response, read) is Err,
{
}

/// A response that echoes another sequence number than the one sent is
/// rejected.
pub proof fn lemma_wrong_sequence_rejected(counter: u8, sent: u8, response: Seq<u8>, read: nat)
    requires
        response.len() > SEQUENCE_OFFSET,
        response[SEQUENCE_OFFSET as int] != sent,
    ensures
        completion(counter, sent, response, read) is Err,
{
}

/// Single flight: of two exchanges begun at the same counter, once the first
/// has been accepted the second is refused as out of turn, whatever its
/// response, and the counter stays put.
pub proof fn lemma_single_flight(counter: u8, first: Seq<u8>, first_read: nat, second: Seq<u8>, second_read: nat)
    requires
        completion(counter, counter, first, first_read) is Ok,
    ensures
        completion(next_seq(counter), counter, second, second_read) == Err::<(), ProtocolError>(
            ProtocolError::OutOfTurn { exchange: counter, session: next_seq(counter) },
        ),
{
}

} // verus!
