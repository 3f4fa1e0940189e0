use vstd::prelude::*;

use crate::fuse::inode::Inode;
use crate::util::text::str_to_string;

verus! {

/// What the filesystem knows of an inode.
#[derive(Debug, Clone)]
pub struct InodeMeta {
    pub inode: Inode,
    pub path: String,
    pub size: u64,
    pub is_dir: bool,
    pub mtime: u64,
    pub mode: u32,
}

impl InodeMeta {
    /// An empty regular file at `path`, mode 0o644.
    pub fn new(inode: Inode, path: &str) -> (m: Self)
        ensures
            m.inode == inode,
            m.path@ == path@,
            m.size == 0,
            !m.is_dir,
            m.mtime == 0,
            m.mode == 0o644,
    {
        InodeMeta {
            inode,
            path: str_to_string(path),
            size: 0,
            is_dir: false,
            mtime: 0,
            mode: 0o644,
        }
    }
}

} // verus!
