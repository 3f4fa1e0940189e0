use vstd::prelude::*;

use crate::util::text::{contains_str, remove_char, spec_contains, spec_remove_char, str_to_string};

verus! {

/// Whether `glob::Pattern::new` accepts the pattern text.
pub uninterp spec fn spec_glob_compiles(pattern: Seq<char>) -> bool;

/// Whether the compiled glob pattern matches the path text under glob's
/// default match options.
pub uninterp spec fn spec_glob_matches(pattern: Seq<char>, path: Seq<char>) -> bool;

/// Compiles `pattern` with `glob::Pattern::new` and, when it compiles, tests
/// `path` with `Pattern::matches`. Trusted: the result is `None` exactly when
/// the pattern does not compile, and otherwise holds glob's verdict; both are
/// named, not stated, as they take glob's whole pattern language to say.
#[verifier::external_body]
fn glob_match(pattern: &str, path: &str) -> (r: Option<bool>)
    ensures
        r is Some <==> spec_glob_compiles(pattern@),
        r matches Some(b) ==> b == spec_glob_matches(pattern@, path@),
{
    match glob::Pattern::new(pattern) {
        Ok(p) => Some(p.matches(path)),
        Err(_) => None,
    }
}

/// How a path is judged against a pattern, given what glob made of the
/// pattern: glob's verdict when it compiled, and otherwise whether the
/// pattern with its '*' taken out occurs in the path.
pub open spec fn spec_profile_match(pattern: Seq<char>, path: Seq<char>, compiled: Option<bool>) -> bool {
    match compiled {
        Some(b) => b,
        None => spec_contains(path, spec_remove_char(pattern, '*')),
    }
}

/// A rule saying which files to warm, how eagerly, and how.
pub struct PrefetchProfile {
    pub path_pattern: String,
    pub priority: u8,
    pub max_size_kb: u64,
    pub pin: bool,
    pub compression: bool,
}

impl PrefetchProfile {
    /// A profile for `pattern`, up to 10240 KiB per file, not pinned,
    /// compressed.
    pub fn new(pattern: &str, priority: u8) -> (p: Self)
        ensures
            p.path_pattern@ == pattern@,
            p.priority == priority,
            p.max_size_kb == 10240,
            !p.pin,
            p.compression,
    {
        PrefetchProfile {
            path_pattern: str_to_string(pattern),
            priority,
            max_size_kb: 10240,
            pin: false,
            compression: true,
        }
    }

    /// Judges `path` against `pattern` once glob's outcome is known (see
    /// `spec_profile_match`).
    pub fn match_with(pattern: &str, path: &str, compiled: Option<bool>) -> (r: bool)
        ensures
            r == spec_profile_match(pattern@, path@, compiled),
    {
        match compiled {
            Some(b) => b,
            None => {
                let simplified = remove_char(pattern, '*');
                contains_str(path, simplified.as_str())
            }
        }
    }

    /// Whether `path` falls under this profile: by glob when the pattern
    /// compiles, else by plain containment of the pattern without '*'.
    pub fn matches(&self, path: &str) -> (r: bool)
        ensures
            spec_glob_compiles(self.path_pattern@) ==> r == spec_glob_matches(self.path_pattern@, path@),
            !spec_glob_compiles(self.path_pattern@) ==> r == spec_contains(path@, spec_remove_char(self.path_pattern@, '*')),
    {
        let compiled = glob_match(self.path_pattern.as_str(), path);
        Self::match_with(self.path_pattern.as_str(), path, compiled)
    }
}

} // verus!
