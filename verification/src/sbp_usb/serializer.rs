use vstd::prelude::*;

use crate::sbp_usb::message::{SbpUsbMessage, spec_message_bytes};

verus! {

/// The wire form of a message (the same as `SbpUsbMessage::to_bytes`).
pub fn serialize(msg: &SbpUsbMessage) -> (r: Vec<u8>)
    ensures
        r@ == spec_message_bytes(msg@),
{
    msg.to_bytes()
}

} // verus!
