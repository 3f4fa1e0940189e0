use vstd::prelude::*;

use crate::common::error::VumError;
use crate::common::result::VumResult;
use crate::sbp_usb::permissions::SbpUsbPermission;

verus! {

/// Operations of the SBP-USB protocol.
#[derive(Debug, Clone, Copy, PartialEq, Eq, Hash, Structural)]
pub enum SbpUsbOpcode {
    UsbStatus,
    UsbRead,
    UsbWrite,
    UsbFlush,
    UsbCacheStatus,
    UsbPrefetch,
    UsbEject,
    UsbHeartbeat,
    UsbMount,
    UsbUnmount,
    UsbJournalStatus,
    UsbRecoveryRun,
    UsbDurabilityStatus,
    UsbWriteAckEvent,
    UsbDeviceEvent,
    UsbMetricsSnapshot,
}

/// The wire byte of an opcode: 0x30 through 0x3F in declaration order.
pub open spec fn spec_opcode_byte(op: SbpUsbOpcode) -> u8 {
    match op {
        SbpUsbOpcode::UsbStatus => 0x30,
        SbpUsbOpcode::UsbRead => 0x31,
        SbpUsbOpcode::UsbWrite => 0x32,
        SbpUsbOpcode::UsbFlush => 0x33,
        SbpUsbOpcode::UsbCacheStatus => 0x34,
        SbpUsbOpcode::UsbPrefetch => 0x35,
        SbpUsbOpcode::UsbEject => 0x36,
        SbpUsbOpcode::UsbHeartbeat => 0x37,
        SbpUsbOpcode::UsbMount => 0x38,
        SbpUsbOpcode::UsbUnmount => 0x39,
        SbpUsbOpcode::UsbJournalStatus => 0x3A,
        SbpUsbOpcode::UsbRecoveryRun => 0x3B,
        SbpUsbOpcode::UsbDurabilityStatus => 0x3C,
        SbpUsbOpcode::UsbWriteAckEvent => 0x3D,
        SbpUsbOpcode::UsbDeviceEvent => 0x3E,
        SbpUsbOpcode::UsbMetricsSnapshot => 0x3F,
    }
}

/// The opcode a wire byte stands for, if any.
pub open spec fn spec_opcode_from_byte(b: u8) -> Option<SbpUsbOpcode> {
    if b == 0x30 { Some(SbpUsbOpcode::UsbStatus) }
    else if b == 0x31 { Some(SbpUsbOpcode::UsbRead) }
    else if b == 0x32 { Some(SbpUsbOpcode::UsbWrite) }
    else if b == 0x33 { Some(SbpUsbOpcode::UsbFlush) }
    else if b == 0x34 { Some(SbpUsbOpcode::UsbCacheStatus) }
    else if b == 0x35 { Some(SbpUsbOpcode::UsbPrefetch) }
    else if b == 0x36 { Some(SbpUsbOpcode::UsbEject) }
    else if b == 0x37 { Some(SbpUsbOpcode::UsbHeartbeat) }
    else if b == 0x38 { Some(SbpUsbOpcode::UsbMount) }
    else if b == 0x39 { Some(SbpUsbOpcode::UsbUnmount) }
    else if b == 0x3A { Some(SbpUsbOpcode::UsbJournalStatus) }
    else if b == 0x3B { Some(SbpUsbOpcode::UsbRecoveryRun) }
    else if b == 0x3C { Some(SbpUsbOpcode::UsbDurabilityStatus) }
    else if b == 0x3D { Some(SbpUsbOpcode::UsbWriteAckEvent) }
    else if b == 0x3E { Some(SbpUsbOpcode::UsbDeviceEvent) }
    else if b == 0x3F { Some(SbpUsbOpcode::UsbMetricsSnapshot) }
    else { None }
}

/// Every opcode survives the trip through its wire byte.
pub proof fn lemma_opcode_byte_roundtrip(op: SbpUsbOpcode)
    ensures
        spec_opcode_from_byte(spec_opcode_byte(op)) == Some(op),
        0x30 <= spec_opcode_byte(op) <= 0x3F,
{
}

impl SbpUsbOpcode {
    pub open spec fn spec_requires_response(self) -> bool {
        !(self is UsbHeartbeat || self is UsbDeviceEvent || self is UsbWriteAckEvent)
    }

    /// The capability bit an opcode requires.
    pub open spec fn spec_permission_bits(self) -> u32 {
        match self {
            SbpUsbOpcode::UsbStatus | SbpUsbOpcode::UsbCacheStatus | SbpUsbOpcode::UsbHeartbeat
            | SbpUsbOpcode::UsbMetricsSnapshot => 1,
            SbpUsbOpcode::UsbRead | SbpUsbOpcode::UsbPrefetch => 2,
            SbpUsbOpcode::UsbWrite => 4,
            SbpUsbOpcode::UsbFlush | SbpUsbOpcode::UsbEject | SbpUsbOpcode::UsbMount
            | SbpUsbOpcode::UsbUnmount | SbpUsbOpcode::UsbRecoveryRun
            | SbpUsbOpcode::UsbJournalStatus
            | SbpUsbOpcode::UsbDurabilityStatus => 8,
            SbpUsbOpcode::UsbWriteAckEvent | SbpUsbOpcode::UsbDeviceEvent => 0x8000_0000,
        }
    }

    /// Decodes a wire byte; bytes outside 0x30..=0x3F are `UnsupportedOpcode`.
    pub fn from_byte(b: u8) -> (r: VumResult<Self>)
        ensures
            r is Ok <==> spec_opcode_from_byte(b) is Some,
            r matches Ok(op) ==> spec_opcode_from_byte(b) == Some(op) && spec_opcode_byte(op) == b,
            r matches Err(e) ==> e == VumError::UnsupportedOpcode(b),
    {
        match b {
            0x30 => Ok(SbpUsbOpcode::UsbStatus),
            0x31 => Ok(SbpUsbOpcode::UsbRead),
            0x32 => Ok(SbpUsbOpcode::UsbWrite),
            0x33 => Ok(SbpUsbOpcode::UsbFlush),
            0x34 => Ok(SbpUsbOpcode::UsbCacheStatus),
            0x35 => Ok(SbpUsbOpcode::UsbPrefetch),
            0x36 => Ok(SbpUsbOpcode::UsbEject),
            0x37 => Ok(SbpUsbOpcode::UsbHeartbeat),
            0x38 => Ok(SbpUsbOpcode::UsbMount),
            0x39 => Ok(SbpUsbOpcode::UsbUnmount),
            0x3A => Ok(SbpUsbOpcode::UsbJournalStatus),
            0x3B => Ok(SbpUsbOpcode::UsbRecoveryRun),
            0x3C => Ok(SbpUsbOpcode::UsbDurabilityStatus),
            0x3D => Ok(SbpUsbOpcode::UsbWriteAckEvent),
            0x3E => Ok(SbpUsbOpcode::UsbDeviceEvent),
            0x3F => Ok(SbpUsbOpcode::UsbMetricsSnapshot),
            _ => Err(VumError::UnsupportedOpcode(b)),
        }
    }

    /// The wire byte of this opcode.
    pub fn to_byte(&self) -> (b: u8)
        ensures
            b == spec_opcode_byte(*self),
    {
        match self {
            SbpUsbOpcode::UsbStatus => 0x30,
            SbpUsbOpcode::UsbRead => 0x31,
            SbpUsbOpcode::UsbWrite => 0x32,
            SbpUsbOpcode::UsbFlush => 0x33,
            SbpUsbOpcode::UsbCacheStatus => 0x34,
            SbpUsbOpcode::UsbPrefetch => 0x35,
            SbpUsbOpcode::UsbEject => 0x36,
            SbpUsbOpcode::UsbHeartbeat => 0x37,
            SbpUsbOpcode::UsbMount => 0x38,
            SbpUsbOpcode::UsbUnmount => 0x39,
            SbpUsbOpcode::UsbJournalStatus => 0x3A,
            SbpUsbOpcode::UsbRecoveryRun => 0x3B,
            SbpUsbOpcode::UsbDurabilityStatus => 0x3C,
            SbpUsbOpcode::UsbWriteAckEvent => 0x3D,
            SbpUsbOpcode::UsbDeviceEvent => 0x3E,
            SbpUsbOpcode::UsbMetricsSnapshot => 0x3F,
        }
    }

    /// The opcode's name, as written in its declaration.
    pub fn name(&self) -> (s: &'static str)
        ensures
            s@ == match *self {
                SbpUsbOpcode::UsbStatus => "UsbStatus"@,
                SbpUsbOpcode::UsbRead => "UsbRead"@,
                SbpUsbOpcode::UsbWrite => "UsbWrite"@,
                SbpUsbOpcode::UsbFlush => "UsbFlush"@,
                SbpUsbOpcode::UsbCacheStatus => "UsbCacheStatus"@,
                SbpUsbOpcode::UsbPrefetch => "UsbPrefetch"@,
                SbpUsbOpcode::UsbEject => "UsbEject"@,
                SbpUsbOpcode::UsbHeartbeat => "UsbHeartbeat"@,
                SbpUsbOpcode::UsbMount => "UsbMount"@,
                SbpUsbOpcode::UsbUnmount => "UsbUnmount"@,
                SbpUsbOpcode::UsbJournalStatus => "UsbJournalStatus"@,
                SbpUsbOpcode::UsbRecoveryRun => "UsbRecoveryRun"@,
                SbpUsbOpcode::UsbDurabilityStatus => "UsbDurabilityStatus"@,
                SbpUsbOpcode::UsbWriteAckEvent => "UsbWriteAckEvent"@,
                SbpUsbOpcode::UsbDeviceEvent => "UsbDeviceEvent"@,
                SbpUsbOpcode::UsbMetricsSnapshot => "UsbMetricsSnapshot"@,
            },
    {
        match self {
            SbpUsbOpcode::UsbStatus => "UsbStatus",
            SbpUsbOpcode::UsbRead => "UsbRead",
            SbpUsbOpcode::UsbWrite => "UsbWrite",
            SbpUsbOpcode::UsbFlush => "UsbFlush",
            SbpUsbOpcode::UsbCacheStatus => "UsbCacheStatus",
            SbpUsbOpcode::UsbPrefetch => "UsbPrefetch",
            SbpUsbOpcode::UsbEject => "UsbEject",
            SbpUsbOpcode::UsbHeartbeat => "UsbHeartbeat",
            SbpUsbOpcode::UsbMount => "UsbMount",
            SbpUsbOpcode::UsbUnmount => "UsbUnmount",
            SbpUsbOpcode::UsbJournalStatus => "UsbJournalStatus",
            SbpUsbOpcode::UsbRecoveryRun => "UsbRecoveryRun",
            SbpUsbOpcode::UsbDurabilityStatus => "UsbDurabilityStatus",
            SbpUsbOpcode::UsbWriteAckEvent => "UsbWriteAckEvent",
            SbpUsbOpcode::UsbDeviceEvent => "UsbDeviceEvent",
            SbpUsbOpcode::UsbMetricsSnapshot => "UsbMetricsSnapshot",
        }
    }

    /// Whether a message with this opcode expects a response: every opcode
    /// but heartbeats and the two event kinds.
    pub fn requires_response(&self) -> (r: bool)
        ensures
            r == self.spec_requires_response(),
    {
        match self {
            SbpUsbOpcode::UsbHeartbeat | SbpUsbOpcode::UsbDeviceEvent | SbpUsbOpcode::UsbWriteAckEvent => false,
            _ => true,
        }
    }

    /// The capability a client needs to issue this opcode.
    pub fn permission(&self) -> (p: SbpUsbPermission)
        ensures
            p.spec_bits() == self.spec_permission_bits(),
    {
        match self {
            SbpUsbOpcode::UsbStatus | SbpUsbOpcode::UsbCacheStatus | SbpUsbOpcode::UsbHeartbeat
            | SbpUsbOpcode::UsbMetricsSnapshot => SbpUsbPermission::CAP_READ_STATUS(),
            SbpUsbOpcode::UsbRead | SbpUsbOpcode::UsbPrefetch => SbpUsbPermission::CAP_READ_FILE(),
            SbpUsbOpcode::UsbWrite => SbpUsbPermission::CAP_WRITE_FILE(),
            SbpUsbOpcode::UsbFlush | SbpUsbOpcode::UsbEject | SbpUsbOpcode::UsbMount
            | SbpUsbOpcode::UsbUnmount | SbpUsbOpcode::UsbRecoveryRun
            | SbpUsbOpcode::UsbJournalStatus
            | SbpUsbOpcode::UsbDurabilityStatus => SbpUsbPermission::CAP_ADMIN_STORAGE(),
            SbpUsbOpcode::UsbWriteAckEvent | SbpUsbOpcode::UsbDeviceEvent => SbpUsbPermission::INTERNAL(),
        }
    }
}

} // verus!
