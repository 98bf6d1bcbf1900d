//! Which HID interface is the keyboard's vendor control channel.
use vstd::prelude::*;

verus! {

/// USB vendor identifier of the keyboard.
pub const TARGET_VENDOR_ID: u16 = 0x24f0;

/// USB product identifier of the keyboard.
pub const TARGET_PRODUCT_ID: u16 = 0x2020;

/// Interface number of the vendor control channel.
pub const TARGET_INTERFACE: i32 = 2;

/// Whether an enumerated HID interface is the keyboard's control channel.
pub fn is_target_device(vendor_id: u16, product_id: u16, interface_number: i32) -> (r: bool)
    ensures
        r == (vendor_id == TARGET_VENDOR_ID && product_id == TARGET_PRODUCT_ID
            && interface_number == TARGET_INTERFACE),
{
    vendor_id == TARGET_VENDOR_ID && product_id == TARGET_PRODUCT_ID
        && interface_number == TARGET_INTERFACE
}

} // verus!
