use vstd::prelude::*;

use crate::journal::checksum::{crc32, spec_crc32};
use crate::util::text::str_to_string;

verus! {

/// What the manifest records of a file.
#[derive(Debug, Clone)]
pub struct FileMeta {
    pub path: String,
    pub size: u64,
    pub modified_at: u64,
    pub checksum: Option<u32>,
    pub is_directory: bool,
    pub permissions: u32,
}

impl FileMeta {
    /// The record of a file from what the filesystem reported of it: its
    /// size, modification time in seconds, whether it is a directory, its
    /// mode, and its contents when it is a regular file. The checksum is the
    /// CRC-32 of the contents; the permissions are the mode's low nine bits.
    pub fn from_stat(
        path: &str,
        size: u64,
        modified_at: u64,
        contents: Option<&[u8]>,
        is_directory: bool,
        mode: u32,
    ) -> (m: Self)
        ensures
            m.path@ == path@,
            m.size == size,
            m.modified_at == modified_at,
            m.checksum == (match contents {
                Some(d) => Some(spec_crc32(d@)),
                None => None,
            }),
            m.is_directory == is_directory,
            m.permissions == mode & 0o777,
    {
        let checksum = match contents {
            Some(d) => Some(crc32(d)),
            None => None,
        };
        FileMeta {
            path: str_to_string(path),
            size,
            modified_at,
            checksum,
            is_directory,
            permissions: mode & 0o777,
        }
    }
}

} // verus!
