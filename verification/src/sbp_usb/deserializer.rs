use vstd::prelude::*;

use crate::common::result::VumResult;
use crate::sbp_usb::message::{SbpUsbMessage, MessageView, MessageParseError, spec_parse_message, spec_message_error};

verus! {

/// Reads a message from wire bytes (the same as `SbpUsbMessage::from_bytes`).
pub fn deserialize(data: &[u8]) -> (r: VumResult<SbpUsbMessage>)
    ensures
        r is Ok <==> spec_parse_message(data@) is Ok,
        r matches Ok(m) ==> spec_parse_message(data@) == Ok::<MessageView, MessageParseError>(m@),
        r matches Err(e) ==> spec_message_error(data@, spec_parse_message(data@)->Err_0, e),
{
    SbpUsbMessage::from_bytes(data)
}

} // verus!
