use vstd::prelude::*;

use crate::common::error::VumError;
use crate::common::result::VumResult;
use crate::util::text::{concat_str, contains_str, skip_chars, spec_contains, spec_trim_start, starts_with, str_to_string, trim_start_char};

verus! {

/// Allows writes unless the filesystem is read-only.
#[derive(Debug)]
pub struct WriteGuard {
    allowed: bool,
}

impl WriteGuard {
    pub closed spec fn spec_allowed(&self) -> bool {
        self.allowed
    }

    pub fn new(read_only: bool) -> (g: Self)
        ensures
            g.spec_allowed() == !read_only,
    {
        WriteGuard { allowed: !read_only }
    }

    /// `Ok` when writes are allowed, `ReadOnlyFilesystem` otherwise.
    pub fn authorize(&self) -> (r: VumResult<()>)
        ensures
            r is Ok <==> self.spec_allowed(),
            r matches Err(e) ==> e is ReadOnlyFilesystem,
    {
        if self.allowed {
            Ok(())
        } else {
            Err(VumError::ReadOnlyFilesystem)
        }
    }
}

/// Keeps paths inside the backing store.
pub struct PathGuard;

/// The part of a resolved path below the backing store, without leading '/'.
pub open spec fn spec_relative(path: Seq<char>, backing: Seq<char>) -> Seq<char> {
    spec_trim_start(path.subrange(backing.len() as int, path.len() as int), '/')
}

/// A resolved path is accepted when it lies under the resolved backing
/// store and the rest of it holds no "..".
pub open spec fn spec_path_accepted(path: Seq<char>, backing: Seq<char>) -> bool {
    backing.is_prefix_of(path) && !spec_contains(spec_relative(path, backing), ".."@)
}

/// The part of `path` below `backing` (which must be a prefix of it),
/// without leading '/'.
pub fn relative_part(path: &str, backing: &str) -> (r: String)
    requires
        backing@.is_prefix_of(path@),
    ensures
        r@ == spec_relative(path@, backing@),
{
    let blen = backing.unicode_len();
    let rest = skip_chars(path, blen);
    trim_start_char(rest.as_str(), '/')
}

impl PathGuard {
    /// Judges a path and backing store already resolved to canonical form:
    /// the path is returned when it lies under the backing store and the
    /// rest of it holds no ".."; otherwise `PathTraversalRejected`.
    pub fn validate_resolved(path: &str, backing: &str) -> (r: VumResult<String>)
        ensures
            r is Ok <==> spec_path_accepted(path@, backing@),
            r matches Ok(p) ==> p@ == path@,
            !backing@.is_prefix_of(path@) ==> (r matches Err(VumError::PathTraversalRejected(m))
                && m@ == "Path '"@ + path@ + "' is outside backing store '"@ + backing@ + "'"@),
            backing@.is_prefix_of(path@) && r is Err ==> (r matches Err(VumError::PathTraversalRejected(m))
                && m@ == "Path contains parent traversal: "@ + path@),
    {
        if !starts_with(path, backing) {
            let a = concat_str("Path '", path);
            let b = concat_str(a.as_str(), "' is outside backing store '");
            let c = concat_str(b.as_str(), backing);
            return Err(VumError::PathTraversalRejected(concat_str(c.as_str(), "'")));
        }
        let relative = relative_part(path, backing);
        if contains_str(relative.as_str(), "..") {
            return Err(VumError::PathTraversalRejected(concat_str("Path contains parent traversal: ", path)));
        }
        Ok(str_to_string(path))
    }
}

} // verus!
