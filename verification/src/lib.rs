//! Volt USB manager: journaled, RAM-first removable storage management.
//!
//! The verified library holds the journal record format, the SBP-USB wire
//! format, recovery decisions, quotas, guards and the other rules of the
//! manager. File, socket and process I/O stands around it in the binary.

pub mod common;
pub mod fuse;
pub mod util;
pub mod journal;
pub mod metadata;
pub mod metrics;
pub mod prefetch;
pub mod ram;
pub mod runtime;
pub mod safety;
pub mod sbp_usb;
