pub mod inode;

pub use inode::Inode;
