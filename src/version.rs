//! Semantic versions, held as plain values.
use vstd::prelude::*;

verus! {

/// A semantic version: `major.minor.patch`, with optional pre-release and
/// build identifiers (empty when absent).
#[derive(Clone, Debug, PartialEq, Eq)]
pub struct Version {
    pub major: u64,
    pub minor: u64,
    pub patch: u64,
    pub pre: String,
    pub build: String,
}

/// What a [`Version`] holds, as mathematical values.
pub struct VersionSpec {
    pub major: u64,
    pub minor: u64,
    pub patch: u64,
    pub pre: Seq<char>,
    pub build: Seq<char>,
}

impl View for Version {
    type V = VersionSpec;

    open spec fn view(&self) -> VersionSpec {
        VersionSpec {
            major: self.major,
            minor: self.minor,
            patch: self.patch,
            pre: self.pre@,
            build: self.build@,
        }
    }
}

impl Version {
    /// A copy of this version.
    pub fn duplicate(&self) -> (r: Version)
        ensures
            r@ == self@,
    {
        Version {
            major: self.major,
            minor: self.minor,
            patch: self.patch,
            pre: self.pre.clone(),
            build: self.build.clone(),
        }
    }
}

/// The error of `semver::Version::parse`, carried without a look inside.
#[verifier::external_type_specification]
#[verifier::external_body]
pub struct ExSemverError(semver::Error);

/// The version that the SemVer grammar reads from `text`, or `None` where
/// `text` is no version.
pub uninterp spec fn semver_parse(text: Seq<char>) -> Option<VersionSpec>;

/// Relies on `semver::Version::parse`: it reads a version from the whole of
/// `text`, failing on an empty text, and keeps each component as it reads it.
#[verifier::external_body]
pub(crate) fn parse_semver(text: &str) -> (r: Result<Version, semver::Error>)
    ensures
        match r {
            Ok(v) => semver_parse(text@) == Some(v@),
            Err(_) => semver_parse(text@) is None,
        },
        text@.len() == 0 ==> r is Err,
{
    semver::Version::parse(text).map(|v| Version {
        major: v.major,
        minor: v.minor,
        patch: v.patch,
        pre: v.pre.as_str().to_string(),
        build: v.build.as_str().to_string(),
    })
}

/// The version written in `text`, if it is one.
pub fn parse_version(text: &str) -> (r: Option<Version>)
    ensures
        match r {
            Some(v) => semver_parse(text@) == Some(v@),
            None => semver_parse(text@) is None,
        },
{
    match parse_semver(text) {
        Ok(v) => Some(v),
        Err(_) => None,
    }
}

} // verus!
