use vstd::prelude::*;

use crate::sbp_usb::opcode::SbpUsbOpcode;

verus! {

/// A set of capabilities an SBP-USB client may hold, one bit each.
#[derive(Debug, Clone, Copy, PartialEq, Eq, Hash, Structural)]
pub struct SbpUsbPermission(u32);

/// All capability bits that have a meaning.
pub const PERMISSION_ALL_BITS: u32 = 0x8000_000F;

impl SbpUsbPermission {
    /// Read status information (bit 0).
    #[allow(non_snake_case)]
    pub fn CAP_READ_STATUS() -> (p: Self)
        ensures
            p.spec_bits() == 1,
    {
        SbpUsbPermission(1)
    }

    /// Read files (bit 1).
    #[allow(non_snake_case)]
    pub fn CAP_READ_FILE() -> (p: Self)
        ensures
            p.spec_bits() == 2,
    {
        SbpUsbPermission(2)
    }

    /// Write files (bit 2).
    #[allow(non_snake_case)]
    pub fn CAP_WRITE_FILE() -> (p: Self)
        ensures
            p.spec_bits() == 4,
    {
        SbpUsbPermission(4)
    }

    /// Administer the storage: flush, eject, mount, recovery (bit 3).
    #[allow(non_snake_case)]
    pub fn CAP_ADMIN_STORAGE() -> (p: Self)
        ensures
            p.spec_bits() == 8,
    {
        SbpUsbPermission(8)
    }

    /// Internal events only (bit 31).
    #[allow(non_snake_case)]
    pub fn INTERNAL() -> (p: Self)
        ensures
            p.spec_bits() == 0x8000_0000,
    {
        SbpUsbPermission(0x8000_0000)
    }

    pub closed spec fn spec_bits(self) -> u32 {
        self.0
    }

    /// The raw bits.
    pub fn bits(&self) -> (b: u32)
        ensures
            b == self.spec_bits(),
    {
        self.0
    }

    /// The empty set.
    pub fn empty() -> (p: Self)
        ensures
            p.spec_bits() == 0,
    {
        SbpUsbPermission(0)
    }

    /// Whether no capability is held.
    pub fn is_empty(&self) -> (r: bool)
        ensures
            r == (self.spec_bits() == 0),
    {
        self.0 == 0
    }

    /// Whether every capability of `other` is held.
    pub fn contains(&self, other: SbpUsbPermission) -> (r: bool)
        ensures
            r == (self.spec_bits() & other.spec_bits() == other.spec_bits()),
    {
        self.0 & other.0 == other.0
    }

    /// The capabilities of both sets.
    pub fn union(&self, other: SbpUsbPermission) -> (p: Self)
        ensures
            p.spec_bits() == self.spec_bits() | other.spec_bits(),
    {
        SbpUsbPermission(self.0 | other.0)
    }

    /// The capability an opcode requires.
    pub fn required_for(opcode: SbpUsbOpcode) -> (p: Self)
        ensures
            p.spec_bits() == opcode.spec_permission_bits(),
    {
        opcode.permission()
    }

    /// The storage administration capability.
    pub fn admin() -> (p: Self)
        ensures
            p.spec_bits() == 8,
    {
        SbpUsbPermission::CAP_ADMIN_STORAGE()
    }
}

} // verus!
