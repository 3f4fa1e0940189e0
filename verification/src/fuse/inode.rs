use vstd::prelude::*;

verus! {

/// The number by which the filesystem names a file.
#[derive(Debug, Clone, Copy, PartialEq, Eq, Structural, Hash)]
pub struct Inode(pub u64);

/// The inode number of the filesystem root.
pub const ROOT_INODE: u64 = 1;

impl Inode {
    /// The root inode.
    pub fn new() -> (i: Self)
        ensures
            i.0 == ROOT_INODE,
    {
        Inode(ROOT_INODE)
    }

    /// The inode with number `n`.
    pub fn from_u64(n: u64) -> (i: Self)
        ensures
            i.0 == n,
    {
        Inode(n)
    }
}

} // verus!
