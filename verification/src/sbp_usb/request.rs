use vstd::prelude::*;

use crate::common::error::VumError;
use crate::common::result::VumResult;
use crate::sbp_usb::message::{SbpUsbMessage, MessageView, MessageParseError, spec_parse_message, spec_message_error, spec_message_bytes, spec_message_checksum, lemma_message_roundtrip};
use crate::util::text::str_to_string;

verus! {

/// Reads a request: a message that parses and carries the REQUEST flag. A
/// message without it is `InvalidSbpMessage`.
pub fn parse_request(data: &[u8]) -> (r: VumResult<SbpUsbMessage>)
    ensures
        r is Ok <==> (spec_parse_message(data@) is Ok && spec_parse_message(data@)->Ok_0.flags & 1 == 1),
        r matches Ok(m) ==> spec_parse_message(data@) == Ok::<MessageView, MessageParseError>(m@),
        spec_parse_message(data@) is Err ==> (r matches Err(e) && spec_message_error(data@, spec_parse_message(data@)->Err_0, e)),
        spec_parse_message(data@) is Ok && r is Err ==> (r matches Err(VumError::InvalidSbpMessage(m))
            && m@ == "message is not a request"@),
{
    let msg = match SbpUsbMessage::from_bytes(data) {
        Ok(m) => m,
        Err(e) => {
            return Err(e);
        },
    };
    if !msg.flags.contains(crate::sbp_usb::message::MessageFlags::REQUEST()) {
        return Err(VumError::InvalidSbpMessage(str_to_string("message is not a request")));
    }
    Ok(msg)
}

/// A request that is sent is read back as that request: the wire form of
/// a message flagged REQUEST (with only known flags, and a payload whose
/// length fits the length field) parses, keeps the REQUEST flag, and gives
/// the same message with the checksum computed on the way out.
pub proof fn law_request_roundtrip(m: MessageView)
    requires
        m.flags & 0xFFC0 == 0,
        m.flags & 1 == 1,
        m.payload.len() <= u32::MAX,
    ensures
        spec_parse_message(spec_message_bytes(m)) == Ok::<MessageView, MessageParseError>(
            MessageView { checksum: spec_message_checksum(m), ..m },
        ),
        spec_parse_message(spec_message_bytes(m))->Ok_0.flags & 1 == 1,
{
    lemma_message_roundtrip(m, Seq::empty());
    assert(spec_message_bytes(m) + Seq::<u8>::empty() =~= spec_message_bytes(m));
}

} // verus!
