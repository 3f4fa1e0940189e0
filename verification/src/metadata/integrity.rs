use vstd::prelude::*;

use crate::common::error::VumError;
use crate::common::result::VumResult;
use crate::util::text::{contains_char, contains_str, spec_contains, starts_with, str_to_string};

verus! {

/// Checks on paths handed to the manager.
pub struct IntegrityChecker;

/// What resolving a path to its canonical form gave.
#[derive(Debug, Clone)]
pub enum ResolvedPath {
    /// The path could not be resolved (it does not exist, or a part of it
    /// is not a directory).
    Unresolved,
    /// The canonical path is not valid UTF-8.
    NotUtf8,
    /// The canonical path.
    Canonical(String),
}

impl IntegrityChecker {
    /// A path must be non-empty and free of NUL characters.
    pub fn check_path(path: &str) -> (r: VumResult<()>)
        ensures
            r is Ok <==> (path@.len() > 0 && !path@.contains('\0')),
            path@.len() == 0 ==> (r matches Err(VumError::InvalidPath(m)) && m@ == "Path is empty"@),
            path@.len() > 0 && path@.contains('\0') ==> (r matches Err(VumError::InvalidPath(m)) && m@
                == "Path contains null bytes"@),
    {
        if path.unicode_len() == 0 {
            return Err(VumError::InvalidPath(str_to_string("Path is empty")));
        }
        if contains_char(path, '\0') {
            return Err(VumError::InvalidPath(str_to_string("Path contains null bytes")));
        }
        Ok(())
    }

    /// A path holding ".." anywhere is rejected.
    pub fn check_path_traversal(path: &str) -> (r: VumResult<()>)
        ensures
            r is Ok <==> !spec_contains(path@, ".."@),
            r is Err ==> (r matches Err(VumError::PathTraversalRejected(m)) && m@ == path@),
    {
        if contains_str(path, "..") {
            return Err(VumError::PathTraversalRejected(str_to_string(path)));
        }
        Ok(())
    }

    /// Judges `path` against the backing store `backing` once both have been
    /// resolved to canonical form: the canonical path is returned when it
    /// begins with the canonical backing store. A path that did not resolve,
    /// or resolved to a non-UTF-8 name, is `InvalidPath`; a backing store
    /// that did not resolve is `BackingPathMissing`, one with a non-UTF-8
    /// name `BackingPathInvalid`; a path outside the store is
    /// `PathTraversalRejected`.
    pub fn check_within_backing_resolved(
        path: &str,
        resolved: &ResolvedPath,
        backing: &str,
        backing_resolved: &ResolvedPath,
    ) -> (r: VumResult<String>)
        ensures
            !(resolved is Canonical) ==> (r matches Err(VumError::InvalidPath(m)) && m@ == path@),
            resolved is Canonical && backing_resolved is Unresolved ==> (r matches Err(
                VumError::BackingPathMissing(m),
            ) && m@ == backing@),
            resolved is Canonical && backing_resolved is NotUtf8 ==> (r matches Err(
                VumError::BackingPathInvalid(m),
            ) && m@ == backing@),
            resolved matches ResolvedPath::Canonical(c) ==> (backing_resolved matches ResolvedPath::Canonical(b) ==> (if b@.is_prefix_of(c@) {
                r matches Ok(s) && s@ == c@
            } else {
                r matches Err(VumError::PathTraversalRejected(m)) && m@ == path@
            })),
    {
        let canonical = match resolved {
            ResolvedPath::Unresolved => {
                return Err(VumError::InvalidPath(str_to_string(path)));
            },
            ResolvedPath::NotUtf8 => {
                return Err(VumError::InvalidPath(str_to_string(path)));
            },
            ResolvedPath::Canonical(c) => c,
        };
        let backing_canonical = match backing_resolved {
            ResolvedPath::Unresolved => {
                return Err(VumError::BackingPathMissing(str_to_string(backing)));
            },
            ResolvedPath::NotUtf8 => {
                return Err(VumError::BackingPathInvalid(str_to_string(backing)));
            },
            ResolvedPath::Canonical(b) => b,
        };
        if !starts_with(canonical.as_str(), backing_canonical.as_str()) {
            return Err(VumError::PathTraversalRejected(str_to_string(path)));
        }
        Ok(str_to_string(canonical.as_str()))
    }
}

} // verus!
