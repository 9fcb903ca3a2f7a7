//! The version parser: the service reports a non-standard four-part version
//! string `MAJOR.MINOR.PATCH.BUILD`; it is parsed into a standard three-part
//! semantic version plus build metadata. Parsing is a strict gate: any other
//! segment count, an empty segment, or a non-numeric leading segment fails.

use vstd::prelude::*;
use crate::error::LoadError;
use crate::text::{split_on, is_dec_digits, dec_value, split_char, parse_u64};

verus! {

/// A semantic version: `major.minor.patch` plus informational build
/// metadata. Build metadata never takes part in precedence ordering.
#[derive(Debug)]
pub struct Version {
    pub major: u64,
    pub minor: u64,
    pub patch: u64,
    pub build: String,
}

/// Whether `s` has the exact shape the service's version strings must have:
/// four dot-separated segments, the first three non-empty runs of digits
/// that fit in 64 bits, the fourth non-empty.
pub open spec fn plex_version_ok(s: Seq<char>) -> bool {
    let parts = split_on(s, '.');
    &&& parts.len() == 4
    &&& is_dec_digits(parts[0]) && dec_value(parts[0]) <= u64::MAX
    &&& is_dec_digits(parts[1]) && dec_value(parts[1]) <= u64::MAX
    &&& is_dec_digits(parts[2]) && dec_value(parts[2]) <= u64::MAX
    &&& parts[3].len() > 0
}

/// Parses a four-segment service version string. Succeeds exactly on the
/// shapes `plex_version_ok` describes; everything else fails with
/// `InvalidVersionFormat` carrying the offending raw string.
pub fn parse_plex_version(s: &str) -> (r: Result<Version, LoadError>)
    ensures
        match r {
            Ok(v) => {
                let parts = split_on(s@, '.');
                &&& plex_version_ok(s@)
                &&& v.major as int == dec_value(parts[0])
                &&& v.minor as int == dec_value(parts[1])
                &&& v.patch as int == dec_value(parts[2])
                &&& v.build@ == parts[3]
            },
            Err(e) => {
                &&& !plex_version_ok(s@)
                &&& e matches LoadError::InvalidVersionFormat { raw } && raw@
                    == s@
            },
        },
{
    let parts = split_char(s, '.');
    proof {
        assert(parts@.map_values(|x: String| x@) == split_on(s@, '.'));
    }
    if parts.len() != 4 {
        return Err(
            LoadError::InvalidVersionFormat { raw: String::from_str(s) },
        );
    }
    proof {
        assert(parts@[0]@ == split_on(s@, '.')[0]);
        assert(parts@[1]@ == split_on(s@, '.')[1]);
        assert(parts@[2]@ == split_on(s@, '.')[2]);
        assert(parts@[3]@ == split_on(s@, '.')[3]);
    }
    let major = match parse_u64(parts[0].as_str()) {
        Some(n) => n,
        None => {
            return Err(
                LoadError::InvalidVersionFormat { raw: String::from_str(s) },
            );
        },
    };
    let minor = match parse_u64(parts[1].as_str()) {
        Some(n) => n,
        None => {
            return Err(
                LoadError::InvalidVersionFormat { raw: String::from_str(s) },
            );
        },
    };
    let patch = match parse_u64(parts[2].as_str()) {
        Some(n) => n,
        None => {
            return Err(
                LoadError::InvalidVersionFormat { raw: String::from_str(s) },
            );
        },
    };
    if parts[3].as_str().unicode_len() == 0 {
        return Err(
            LoadError::InvalidVersionFormat { raw: String::from_str(s) },
        );
    }
    let mut parts = parts;
    let build = parts.pop().unwrap();
    Ok(Version { major, minor, patch, build })
}

/// Precedence equality: two versions rank the same exactly when their
/// numeric triples agree, whatever their build metadata.
pub open spec fn same_precedence(a: Version, b: Version) -> bool {
    a.major == b.major && a.minor == b.minor && a.patch == b.patch
}

/// Precedence order: the standard lexicographic order on
/// `(major, minor, patch)`; build metadata does not take part.
pub open spec fn earlier_precedence(a: Version, b: Version) -> bool {
    ||| a.major < b.major
    ||| (a.major == b.major && a.minor < b.minor)
    ||| (a.major == b.major && a.minor == b.minor && a.patch < b.patch)
}

impl Version {
    /// Whether the two versions rank equal in precedence.
    pub fn eq_precedence(&self, other: &Version) -> (r: bool)
        ensures
            r == same_precedence(*self, *other),
    {
        self.major == other.major && self.minor == other.minor && self.patch
            == other.patch
    }

    /// Whether `self` ranks strictly before `other` in precedence.
    pub fn lt_precedence(&self, other: &Version) -> (r: bool)
        ensures
            r == earlier_precedence(*self, *other),
    {
        if self.major != other.major {
            self.major < other.major
        } else if self.minor != other.minor {
            self.minor < other.minor
        } else {
            self.patch < other.patch
        }
    }
}

/// Build metadata is informational only: two versions that differ in
/// nothing but their build metadata rank equal in precedence, and neither
/// ranks before the other.
pub proof fn lemma_build_metadata_ignored(a: Version, b: Version)
    requires
        a.major == b.major,
        a.minor == b.minor,
        a.patch == b.patch,
    ensures
        same_precedence(a, b),
        !earlier_precedence(a, b),
        !earlier_precedence(b, a),
{
}

} // verus!
