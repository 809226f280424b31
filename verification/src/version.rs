//! Semantic module versions.
//!
//! A module registration is keyed by a (module id, version) pair; the version
//! is held as its three numeric components so that contracts can speak of it
//! directly.

use vstd::prelude::*;

verus! {

/// A semantic version, reduced to its numeric components.
#[derive(Clone, Copy, Debug, PartialEq, Eq, Hash, Structural)]
pub struct ModuleVersion {
    pub major: u64,
    pub minor: u64,
    pub patch: u64,
}

/// What `semver::Version::parse` yields on a given text: `None` where the
/// text is not a valid semantic version, otherwise the numeric components.
pub uninterp spec fn semver_of(text: Seq<char>) -> Option<ModuleVersion>;

/// Relies on `semver::Version::parse`: the result depends on the text alone,
/// and parsing fails exactly on texts that are not valid semantic versions.
#[verifier::external_body]
pub fn parse_module_version(text: &str) -> (r: Option<ModuleVersion>)
    ensures
        r == semver_of(text@),
{
    match semver::Version::parse(text) {
        Ok(v) => Some(ModuleVersion { major: v.major, minor: v.minor, patch: v.patch }),
        Err(_) => None,
    }
}

} // verus!
