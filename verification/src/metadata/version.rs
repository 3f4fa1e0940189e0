use vstd::prelude::*;

use crate::common::error::VumError;
use crate::common::result::VumResult;
use crate::util::number::{decimal_string, parse_u16, spec_decimal, spec_parse_u16, lemma_parse_decimal_u16, lemma_decimal_digits, spec_is_digit};
use crate::util::text::{concat_str, push_char, split_char, spec_split, str_to_string, lemma_split_concat, lemma_split_single};

verus! {

/// A `major.minor.patch` version of the on-disk format.
#[derive(Debug, Clone, Copy, PartialEq, Eq, Structural)]
pub struct Version {
    pub major: u16,
    pub minor: u16,
    pub patch: u16,
}

/// The text of a version: its three numbers in decimal, joined by '.'.
pub open spec fn spec_version_text(v: Version) -> Seq<char> {
    spec_decimal(v.major as nat) + seq!['.'] + spec_decimal(v.minor as nat) + seq!['.'] + spec_decimal(v.patch as nat)
}

/// The version a text stands for: exactly three '.'-separated pieces, each
/// a 16-bit number as `str::parse` reads it.
pub open spec fn spec_parse_version(s: Seq<char>) -> Option<Version> {
    let parts = spec_split(s, '.');
    if parts.len() != 3 {
        None
    } else {
        match (spec_parse_u16(parts[0]), spec_parse_u16(parts[1]), spec_parse_u16(parts[2])) {
            (Some(major), Some(minor), Some(patch)) => Some(Version { major, minor, patch }),
            _ => None,
        }
    }
}

/// The text of the error `from_string` reports for `s`, when it reports one.
pub open spec fn spec_version_error_text(s: Seq<char>) -> Seq<char> {
    let parts = spec_split(s, '.');
    if parts.len() != 3 {
        "Invalid version format: "@ + s
    } else if spec_parse_u16(parts[0]) is None {
        "Invalid major version: "@ + parts[0]
    } else if spec_parse_u16(parts[1]) is None {
        "Invalid minor version: "@ + parts[1]
    } else {
        "Invalid patch version: "@ + parts[2]
    }
}

proof fn lemma_decimal_no_dot(n: nat)
    ensures
        !spec_decimal(n).contains('.'),
{
    lemma_decimal_digits(n);
    if spec_decimal(n).contains('.') {
        let i = choose|i: int| 0 <= i < spec_decimal(n).len() && spec_decimal(n)[i] == '.';
        assert(spec_is_digit(spec_decimal(n)[i]));
    }
}

/// Writing a version as text and reading it back gives the same version.
pub proof fn lemma_version_roundtrip(v: Version)
    ensures
        spec_parse_version(spec_version_text(v)) == Some(v),
{
    let a = spec_decimal(v.major as nat);
    let b = spec_decimal(v.minor as nat);
    let c = spec_decimal(v.patch as nat);
    lemma_decimal_no_dot(v.major as nat);
    lemma_decimal_no_dot(v.minor as nat);
    lemma_decimal_no_dot(v.patch as nat);
    lemma_split_concat(a + seq!['.'] + b, c, '.');
    lemma_split_concat(a, b, '.');
    lemma_split_single(a, '.');
    lemma_split_single(b, '.');
    lemma_split_single(c, '.');
    let parts = spec_split(spec_version_text(v), '.');
    assert(parts =~= seq![a, b, c]);
    lemma_parse_decimal_u16(v.major);
    lemma_parse_decimal_u16(v.minor);
    lemma_parse_decimal_u16(v.patch);
}

impl Version {
    /// The current on-disk format version, 1.0.0.
    #[allow(non_snake_case)]
    pub fn CURRENT() -> (v: Self)
        ensures
            v == (Version { major: 1, minor: 0, patch: 0 }),
    {
        Version { major: 1, minor: 0, patch: 0 }
    }

    /// The text `major.minor.patch`.
    pub fn to_string(&self) -> (s: String)
        ensures
            s@ == spec_version_text(*self),
    {
        let mut s = decimal_string(self.major as u64);
        push_char(&mut s, '.');
        let minor = decimal_string(self.minor as u64);
        s.append(minor.as_str());
        push_char(&mut s, '.');
        let patch = decimal_string(self.patch as u64);
        s.append(patch.as_str());
        s
    }

    /// Reads `major.minor.patch`; anything else is `InvalidConfig`, naming
    /// the text or the piece that is wrong.
    pub fn from_string(s: &str) -> (r: VumResult<Self>)
        ensures
            r is Ok <==> spec_parse_version(s@) is Some,
            r matches Ok(v) ==> spec_parse_version(s@) == Some(v),
            r is Err ==> (r matches Err(VumError::InvalidConfig(m)) && m@ == spec_version_error_text(s@)),
    {
        let parts = split_char(s, '.');
        let ghost pv = parts@.map_values(|p: String| p@);
        if parts.len() != 3 {
            return Err(VumError::InvalidConfig(concat_str("Invalid version format: ", s)));
        }
        assert(pv[0] == parts@[0]@ && pv[1] == parts@[1]@ && pv[2] == parts@[2]@);
        let major = match parse_u16(parts[0].as_str()) {
            Some(x) => x,
            None => {
                return Err(VumError::InvalidConfig(concat_str("Invalid major version: ", parts[0].as_str())));
            },
        };
        let minor = match parse_u16(parts[1].as_str()) {
            Some(x) => x,
            None => {
                return Err(VumError::InvalidConfig(concat_str("Invalid minor version: ", parts[1].as_str())));
            },
        };
        let patch = match parse_u16(parts[2].as_str()) {
            Some(x) => x,
            None => {
                return Err(VumError::InvalidConfig(concat_str("Invalid patch version: ", parts[2].as_str())));
            },
        };
        Ok(Version { major, minor, patch })
    }
}

impl Default for Version {
    /// The current version.
    fn default() -> (v: Self)
        ensures
            v == (Version { major: 1, minor: 0, patch: 0 }),
    {
        Self::CURRENT()
    }
}

} // verus!
