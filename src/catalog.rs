//! The fixed command payloads and the decoder of the firmware-version reply.
use vstd::prelude::*;
use crate::decimal::{dotted, dotted_version};

verus! {

/// Offset of the first of the four version bytes in the firmware reply.
pub const VERSION_OFFSET: usize = 4;

/// A firmware reply must report strictly more bytes than this.
pub const FIRMWARE_MIN_READ: usize = 8;

/// Why a firmware reply could not be decoded.
#[derive(Debug, Clone, Copy, PartialEq, Eq, Structural)]
pub enum DecodeError {
    /// The read reported too few bytes, or more than the buffer holds.
    ShortResponse { read: usize, min: usize },
}

/// The product identifier string, as raw ASCII bytes, that the session-init
/// and firmware-query commands carry.
pub open spec fn product_tag() -> Seq<u8> {
    seq![
        0x4du8, 0x43, 0x49, 0x51, 0x46, 0x49, 0x46, 0x45, 0x44, 0x4c, 0x48, 0x39, 0x46, 0x34, 0x41,
        0x45, 0x43, 0x58, 0x39, 0x31, 0x36, 0x50, 0x42, 0x44, 0x35, 0x50, 0x33, 0x41, 0x33, 0x30,
        0x37, 0x38,
    ]
}

/// Payload of the session-initialize command.
pub open spec fn session_init_bytes() -> Seq<u8> {
    seq![0x00u8, 0x13, 0x00] + product_tag()
}

/// Payload of the trigger command: its opcode bytes, then 28 filler bytes
/// of 0xFF.
pub open spec fn trigger_bytes() -> Seq<u8> {
    seq![0x00u8, 0x2d, 0x00, 0x0f] + Seq::new(28, |_i: int| 0xFFu8)
}

/// Payload of the firmware-query command.
pub open spec fn firmware_query_bytes() -> Seq<u8> {
    seq![0x00u8, 0x11, 0x06] + product_tag()
}

/// The version string a firmware reply carries in bytes 4 to 7.
pub open spec fn reply_version(response: Seq<u8>) -> Seq<char> {
    dotted(response[4], response[5], response[6], response[7])
}

/// Payload of the session-initialize command, sent once before any other.
pub fn session_init_payload() -> (r: Vec<u8>)
    ensures
        r@ == session_init_bytes(),
{
    let r: Vec<u8> = vec![
        0x00, 0x13, 0x00, 0x4d, 0x43, 0x49, 0x51, 0x46, 0x49, 0x46, 0x45, 0x44, 0x4c, 0x48, 0x39,
        0x46, 0x34, 0x41, 0x45, 0x43, 0x58, 0x39, 0x31, 0x36, 0x50, 0x42, 0x44, 0x35, 0x50, 0x33,
        0x41, 0x33, 0x30, 0x37, 0x38,
    ];
    assert(r@ =~= session_init_bytes());
    r
}

/// Payload of the trigger command.
pub fn trigger_payload() -> (r: Vec<u8>)
    ensures
        r@ == trigger_bytes(),
{
    let r: Vec<u8> = vec![
        0x00, 0x2d, 0x00, 0x0f, 0xFF, 0xFF, 0xFF, 0xFF, 0xFF, 0xFF, 0xFF, 0xFF, 0xFF, 0xFF, 0xFF,
        0xFF, 0xFF, 0xFF, 0xFF, 0xFF, 0xFF, 0xFF, 0xFF, 0xFF, 0xFF, 0xFF, 0xFF, 0xFF, 0xFF, 0xFF,
        0xFF, 0xFF,
    ];
    assert(r@ =~= trigger_bytes());
    r
}

/// Payload of the firmware-query command.
pub fn firmware_query_payload() -> (r: Vec<u8>)
    ensures
        r@ == firmware_query_bytes(),
{
    let r: Vec<u8> = vec![
        0x00, 0x11, 0x06, 0x4d, 0x43, 0x49, 0x51, 0x46, 0x49, 0x46, 0x45, 0x44, 0x4c, 0x48, 0x39,
        0x46, 0x34, 0x41, 0x45, 0x43, 0x58, 0x39, 0x31, 0x36, 0x50, 0x42, 0x44, 0x35, 0x50, 0x33,
        0x41, 0x33, 0x30, 0x37, 0x38,
    ];
    assert(r@ =~= firmware_query_bytes());
    r
}

/// Decodes the reply read after an accepted firmware query, of which the
/// device reported `read` bytes: bytes 4 to 7 as `major.minor.patch.build`.
/// A reply of no more than 8 bytes (or a count beyond the buffer) is refused.
pub fn decode_firmware_response(response: &[u8], read: usize) -> (r: Result<String, DecodeError>)
    ensures
        r is Ok <==> (FIRMWARE_MIN_READ < read && read <= response@.len()),
        r matches Ok(s) ==> s@ == reply_version(response@),
        r matches Err(e) ==> e == (DecodeError::ShortResponse { read, min: FIRMWARE_MIN_READ }),
{
    if read <= FIRMWARE_MIN_READ || read > response.len() {
        return Err(DecodeError::ShortResponse { read, min: FIRMWARE_MIN_READ });
    }
    Ok(dotted_version(
        response[VERSION_OFFSET],
        response[VERSION_OFFSET + 1],
        response[VERSION_OFFSET + 2],
        response[VERSION_OFFSET + 3],
    ))
}

} // verus!
