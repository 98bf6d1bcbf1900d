//! Sequenced request/response exchange over HID feature reports for a
//! keyboard's vendor control channel: framing, sequence tracking, echo
//! validation, the fixed command payloads and the firmware-version decoder.
//! The device I/O itself lives with the caller.
pub mod catalog;
pub mod decimal;
pub mod device;
pub mod frame;
pub mod session;

pub use frame::{
    check_echo, frame_payload, next_sequence, outbound_frame, poll_frame, ProtocolError,
    ACK_MIN_READ, MAX_PAYLOAD_LEN, REPORT_LEN, SEQUENCE_OFFSET, STATUS_DONE, STATUS_OFFSET,
};
pub use session::{Exchange, Session};
pub use decimal::{decimal_string, dotted_version};
pub use catalog::{
    decode_firmware_response, firmware_query_payload, session_init_payload, trigger_payload,
    DecodeError, FIRMWARE_MIN_READ, VERSION_OFFSET,
};
pub use device::{is_target_device, TARGET_INTERFACE, TARGET_PRODUCT_ID, TARGET_VENDOR_ID};
