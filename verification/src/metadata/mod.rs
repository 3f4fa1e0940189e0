pub mod file_meta;
pub mod inode_meta;
pub mod integrity;
pub mod manifest;
pub mod path_index;
pub mod version;

pub use file_meta::FileMeta;
pub use inode_meta::InodeMeta;
pub use integrity::IntegrityChecker;
pub use manifest::Manifest;
pub use path_index::PathIndex;
pub use version::Version;
