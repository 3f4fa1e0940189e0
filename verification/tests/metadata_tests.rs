use std::path::Path;

use volt_usb_manager::fuse::inode::Inode;
use volt_usb_manager::metadata::file_meta::FileMeta;
use volt_usb_manager::metadata::inode_meta::InodeMeta;
use volt_usb_manager::metadata::integrity::{IntegrityChecker, ResolvedPath};
use volt_usb_manager::metadata::manifest::Manifest;
use volt_usb_manager::metadata::version::Version;

fn resolve(p: &str) -> ResolvedPath {
    match Path::new(p).canonicalize() {
        Err(_) => ResolvedPath::Unresolved,
        Ok(c) => match c.to_str() {
            Some(s) => ResolvedPath::Canonical(s.to_string()),
            None => ResolvedPath::NotUtf8,
        },
    }
}

fn check_within_backing(path: &str, backing: &str) -> Result<String, volt_usb_manager::common::error::VumError> {
    IntegrityChecker::check_within_backing_resolved(path, &resolve(path), backing, &resolve(backing))
}

#[test]
fn test_new() {
    let inode = Inode::new();
    let meta = InodeMeta::new(inode, "/test/path");
    assert_eq!(meta.inode, inode);
    assert_eq!(meta.path, "/test/path");
    assert_eq!(meta.size, 0);
    assert!(!meta.is_dir);
    assert_eq!(meta.mode, 0o644);
}

#[test]
fn test_new_directory_path() {
    let inode = Inode::from_u64(42);
    let meta = InodeMeta::new(inode, "/var/log");
    assert_eq!(meta.inode.0, 42);
    assert_eq!(meta.path, "/var/log");
}

#[test]
fn test_fields_independent() {
    let a = InodeMeta::new(Inode::from_u64(1), "/a");
    let b = InodeMeta::new(Inode::from_u64(2), "/b");
    assert_ne!(a.inode, b.inode);
    assert_ne!(a.path, b.path);
}

#[test]
fn test_clone() {
    let meta = InodeMeta::new(Inode::from_u64(7), "/clone");
    let cloned = meta.clone();
    assert_eq!(meta.inode, cloned.inode);
    assert_eq!(meta.path, cloned.path);
}

#[test]
fn test_check_path_valid() {
    assert!(IntegrityChecker::check_path("/valid/path").is_ok());
}

#[test]
fn test_check_path_empty() {
    assert!(IntegrityChecker::check_path("").is_err());
}

#[test]
fn test_check_path_null_byte() {
    assert!(IntegrityChecker::check_path("/bad\0path").is_err());
}

#[test]
fn test_check_path_traversal_detected() {
    let result = IntegrityChecker::check_path_traversal("/safe/../../etc");
    assert!(result.is_err());
}

#[test]
fn test_check_path_traversal_clean() {
    assert!(IntegrityChecker::check_path_traversal("/safe/path").is_ok());
}

#[test]
fn test_check_path_traversal_encoded() {
    assert!(IntegrityChecker::check_path_traversal("/safe/..\\stuff").is_err());
}

#[test]
fn test_check_within_backing_valid() {
    // A file of this crate that lies below the working directory.
    let result = check_within_backing("src/lib.rs", ".");
    assert!(result.is_ok());
}

#[test]
fn check_within_backing_outside_rejected() {
    let result = check_within_backing("src", "src/metadata");
    assert!(result.is_err());
}

#[test]
fn test_check_within_backing_invalid_backing() {
    let result = check_within_backing("Cargo.toml", "/nonexistent_backing_path_xyz");
    assert!(result.is_err());
}

#[test]
fn test_new_manifest() {
    let m = Manifest::new();
    assert!(m.entries.is_empty());
    assert_eq!(m.version, 1);
    assert!(m.created_at > 0);
}

#[test]
fn manifest_test_add_file() {
    let mut m = Manifest::new();
    let meta = FileMeta {
        path: "/f.txt".into(),
        size: 100,
        modified_at: 0,
        checksum: None,
        is_directory: false,
        permissions: 0o644,
    };
    m.add_file(meta);
    assert_eq!(m.entries.len(), 1);
}

#[test]
fn test_remove_file() {
    let mut m = Manifest::new();
    let meta = FileMeta {
        path: "/f.txt".into(),
        size: 100,
        modified_at: 0,
        checksum: None,
        is_directory: false,
        permissions: 0o644,
    };
    m.add_file(meta);
    m.remove_file("/f.txt");
    assert!(m.entries.is_empty());
}

#[test]
fn test_current() {
    let v = Version::CURRENT();
    assert_eq!(v.major, 1);
    assert_eq!(v.minor, 0);
    assert_eq!(v.patch, 0);
}

#[test]
fn test_to_string() {
    let v = Version { major: 2, minor: 3, patch: 4 };
    assert_eq!(v.to_string(), "2.3.4");
}

#[test]
fn test_from_string() {
    let v = Version::from_string("1.2.3").unwrap();
    assert_eq!(v.major, 1);
    assert_eq!(v.minor, 2);
    assert_eq!(v.patch, 3);
}

#[test]
fn test_from_string_wrong_parts() {
    assert!(Version::from_string("1.2").is_err());
    assert!(Version::from_string("1.2.3.4").is_err());
}

#[test]
fn test_from_string_non_numeric() {
    assert!(Version::from_string("a.b.c").is_err());
}

#[test]
fn test_from_string_empty() {
    assert!(Version::from_string("").is_err());
}

#[test]
fn test_display() {
    let v = Version { major: 0, minor: 9, patch: 1 };
    assert_eq!(v.to_string(), "0.9.1");
}

#[test]
fn test_roundtrip() {
    let v = Version { major: 3, minor: 14, patch: 159 };
    let s = v.to_string();
    let restored = Version::from_string(&s).unwrap();
    assert_eq!(v, restored);
}

#[test]
fn test_default_is_current() {
    assert_eq!(Version::default(), Version::CURRENT());
}

use volt_usb_manager::metadata::path_index::PathIndex;

#[test]
fn test_insert_and_lookup() {
    let mut idx = PathIndex::new();
    let inode = Inode::from_u64(42);
    idx.insert("/test/file", inode);
    assert_eq!(idx.lookup("/test/file"), Some(inode));
}

#[test]
fn test_lookup_nonexistent() {
    let idx = PathIndex::new();
    assert_eq!(idx.lookup("/nope"), None);
}

#[test]
fn test_remove() {
    let mut idx = PathIndex::new();
    idx.insert("/tmp", Inode::from_u64(1));
    idx.remove("/tmp");
    assert!(!idx.contains("/tmp"));
}

#[test]
fn test_contains() {
    let mut idx = PathIndex::new();
    assert!(!idx.contains("/missing"));
    idx.insert("/present", Inode::from_u64(2));
    assert!(idx.contains("/present"));
}

#[test]
fn test_len() {
    let mut idx = PathIndex::new();
    assert_eq!(idx.len(), 0);
    idx.insert("/a", Inode::from_u64(1));
    idx.insert("/b", Inode::from_u64(2));
    assert_eq!(idx.len(), 2);
    idx.remove("/a");
    assert_eq!(idx.len(), 1);
}

#[test]
fn test_overwrite() {
    let mut idx = PathIndex::new();
    idx.insert("/same", Inode::from_u64(1));
    idx.insert("/same", Inode::from_u64(2));
    assert_eq!(idx.lookup("/same"), Some(Inode::from_u64(2)));
    assert_eq!(idx.len(), 1);
}

#[test]
fn test_checksum_content_based() {
    let meta = FileMeta {
        path: "/a".into(),
        size: 0,
        modified_at: 0,
        checksum: Some(crc32fast::hash(b"hello")),
        is_directory: false,
        permissions: 0,
    };
    assert_eq!(meta.checksum, Some(crc32fast::hash(b"hello")));
}

#[test]
fn file_meta_from_stat_checksums_contents() {
    let m = FileMeta::from_stat("/x", 5, 7, Some(b"hello"), false, 0o100644);
    assert_eq!(m.checksum, Some(crc32fast::hash(b"hello")));
    assert_eq!(m.permissions, 0o644);
    let d = FileMeta::from_stat("/d", 0, 0, None, true, 0o40755);
    assert_eq!(d.checksum, None);
    assert_eq!(d.permissions, 0o755);
}

#[test]
fn manifest_add_replaces_and_get_reads_back() {
    let mut m = Manifest::new();
    let meta = |size: u64| FileMeta {
        path: "/f".into(),
        size,
        modified_at: 0,
        checksum: None,
        is_directory: false,
        permissions: 0,
    };
    m.add_file(meta(1));
    m.add_file(meta(2));
    assert_eq!(m.entries.len(), 1);
    assert_eq!(m.get("/f").unwrap().size, 2);
    assert!(m.get("/g").is_none());
    m.remove_file("/f");
    assert!(m.get("/f").is_none());
}

#[test]
fn version_error_texts() {
    assert_eq!(Version::from_string("1.2").unwrap_err().to_string(), "Invalid configuration: Invalid version format: 1.2");
    assert_eq!(Version::from_string("1.x.3").unwrap_err().to_string(), "Invalid configuration: Invalid minor version: x");
    assert_eq!(Version::from_string("+7.0.70000").unwrap_err().to_string(), "Invalid configuration: Invalid patch version: 70000");
    assert_eq!(Version::from_string("+7.0.1").unwrap(), Version { major: 7, minor: 0, patch: 1 });
}

#[test]
fn integrity_error_texts() {
    assert_eq!(IntegrityChecker::check_path("").unwrap_err().to_string(), "Invalid path: Path is empty");
    assert_eq!(
        IntegrityChecker::check_path("a\0b").unwrap_err().to_string(),
        "Invalid path: Path contains null bytes"
    );
    let r = IntegrityChecker::check_within_backing_resolved(
        "x",
        &ResolvedPath::Canonical("/srv/x".to_string()),
        "b",
        &ResolvedPath::Unresolved,
    );
    assert_eq!(r.unwrap_err().to_string(), "Backing path missing: b");
    let r = IntegrityChecker::check_within_backing_resolved(
        "x",
        &ResolvedPath::Canonical("/srv/x".to_string()),
        "b",
        &ResolvedPath::Canonical("/srv".to_string()),
    );
    assert_eq!(r.unwrap(), "/srv/x");
}

#[test]
fn manifest_keeps_records_under_their_keys() {
    let mut m = Manifest::new();
    let meta = FileMeta {
        path: "/real/path.txt".into(),
        size: 7,
        modified_at: 0,
        checksum: None,
        is_directory: false,
        permissions: 0o644,
    };
    m.insert("alias".to_string(), meta.clone());
    assert_eq!(m.get("alias").unwrap().size, 7);
    assert!(m.get("/real/path.txt").is_none());
    m.add_file(meta);
    assert_eq!(m.entries.len(), 2);
    assert_eq!(m.get("/real/path.txt").unwrap().size, 7);
    m.remove_file("alias");
    assert!(m.get("alias").is_none());
    assert_eq!(m.entries.len(), 1);
    assert_eq!(m.entries[0].key, "/real/path.txt");
}
