use vstd::prelude::*;
use vstd::string::*;

use crate::util::number::{decimal_string, spec_decimal};

verus! {

/// Errors reported by the manager.
#[derive(Debug, Clone)]
pub enum VumError {
    JournalCorrupt(String),
    JournalChecksumFailed,
    JournalOpenFailed(String),
    JournalWriteFailed(String),
    JournalReadFailed(String),
    FsyncFailed(String),
    InvalidSbpMessage(String),
    ChecksumMismatch,
    UnsupportedOpcode(u8),
    InvalidPath(String),
    PathTraversalRejected(String),
    BackingPathMissing(String),
    BackingPathInvalid(String),
    InvalidConfig(String),
    InternalInvariantViolation(String),
    UnsafeToEject(String),
    ReadOnlyFilesystem,
    FileNotFound(String),
    ReadFailed(String),
    WriteFailed(String),
    DeviceNotFound,
    PermissionDenied(String),
    /// An input/output operation failed; the text is the system's report.
    Io(String),
}

/// The human-readable text of an error: a fixed description of its kind,
/// followed by the detail it carries.
pub open spec fn spec_error_text(e: VumError) -> Seq<char> {
    match e {
        VumError::JournalCorrupt(m) => "Journal corrupt: "@ + m@,
        VumError::JournalChecksumFailed => "Journal checksum verification failed"@,
        VumError::JournalOpenFailed(m) => "Journal open failed: "@ + m@,
        VumError::JournalWriteFailed(m) => "Journal write failed: "@ + m@,
        VumError::JournalReadFailed(m) => "Journal read failed: "@ + m@,
        VumError::FsyncFailed(m) => "Fsync failed: "@ + m@,
        VumError::InvalidSbpMessage(m) => "Invalid SBP message: "@ + m@,
        VumError::ChecksumMismatch => "Checksum mismatch"@,
        VumError::UnsupportedOpcode(b) => "Unsupported opcode: "@ + spec_decimal(b as nat),
        VumError::InvalidPath(m) => "Invalid path: "@ + m@,
        VumError::PathTraversalRejected(m) => "Path traversal rejected: "@ + m@,
        VumError::BackingPathMissing(m) => "Backing path missing: "@ + m@,
        VumError::BackingPathInvalid(m) => "Backing path invalid: "@ + m@,
        VumError::InvalidConfig(m) => "Invalid configuration: "@ + m@,
        VumError::InternalInvariantViolation(m) => "Internal invariant violation: "@ + m@,
        VumError::UnsafeToEject(m) => "Unsafe to eject: "@ + m@,
        VumError::ReadOnlyFilesystem => "Read-only filesystem"@,
        VumError::FileNotFound(m) => "File not found: "@ + m@,
        VumError::ReadFailed(m) => "Read failed: "@ + m@,
        VumError::WriteFailed(m) => "Write failed: "@ + m@,
        VumError::DeviceNotFound => "Device not found"@,
        VumError::PermissionDenied(m) => "Permission denied: "@ + m@,
        VumError::Io(m) => "I/O error: "@ + m@,
    }
}

fn with_detail(prefix: &str, detail: &String) -> (s: String)
    ensures
        s@ == prefix@ + detail@,
{
    let mut s = String::from_str(prefix);
    s.append(detail.as_str());
    s
}

impl VumError {
    /// The human-readable text of the error.
    pub fn to_string(&self) -> (s: String)
        ensures
            s@ == spec_error_text(*self),
    {
        match self {
            VumError::JournalCorrupt(m) => with_detail("Journal corrupt: ", m),
            VumError::JournalChecksumFailed => String::from_str("Journal checksum verification failed"),
            VumError::JournalOpenFailed(m) => with_detail("Journal open failed: ", m),
            VumError::JournalWriteFailed(m) => with_detail("Journal write failed: ", m),
            VumError::JournalReadFailed(m) => with_detail("Journal read failed: ", m),
            VumError::FsyncFailed(m) => with_detail("Fsync failed: ", m),
            VumError::InvalidSbpMessage(m) => with_detail("Invalid SBP message: ", m),
            VumError::ChecksumMismatch => String::from_str("Checksum mismatch"),
            VumError::UnsupportedOpcode(b) => with_detail("Unsupported opcode: ", &decimal_string(*b as u64)),
            VumError::InvalidPath(m) => with_detail("Invalid path: ", m),
            VumError::PathTraversalRejected(m) => with_detail("Path traversal rejected: ", m),
            VumError::BackingPathMissing(m) => with_detail("Backing path missing: ", m),
            VumError::BackingPathInvalid(m) => with_detail("Backing path invalid: ", m),
            VumError::InvalidConfig(m) => with_detail("Invalid configuration: ", m),
            VumError::InternalInvariantViolation(m) => with_detail("Internal invariant violation: ", m),
            VumError::UnsafeToEject(m) => with_detail("Unsafe to eject: ", m),
            VumError::ReadOnlyFilesystem => String::from_str("Read-only filesystem"),
            VumError::FileNotFound(m) => with_detail("File not found: ", m),
            VumError::ReadFailed(m) => with_detail("Read failed: ", m),
            VumError::WriteFailed(m) => with_detail("Write failed: ", m),
            VumError::DeviceNotFound => String::from_str("Device not found"),
            VumError::PermissionDenied(m) => with_detail("Permission denied: ", m),
            VumError::Io(m) => with_detail("I/O error: ", m),
        }
    }
}

} // verus!
