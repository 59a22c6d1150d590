//! Version numbers of the LLVM toolchain.

use crate::error::Error;
use crate::format::{decimal, push_decimal};
use crate::text::{chars_of, push_str, string_from};
use vstd::prelude::*;

verus! {

/// A semantic version: three numbers, a pre-release tag and build metadata,
/// the last two empty where the version has none.
#[derive(Debug)]
pub struct Version {
    /// Major number.
    pub major: u64,
    /// Minor number.
    pub minor: u64,
    /// Patch number.
    pub patch: u64,
    /// Pre-release tag, without its hyphen.
    pub pre: String,
    /// Build metadata, without its plus sign.
    pub build: String,
}

/// The mathematical value of a `Version`.
pub struct VersionView {
    pub major: nat,
    pub minor: nat,
    pub patch: nat,
    pub pre: Seq<char>,
    pub build: Seq<char>,
}

impl View for Version {
    type V = VersionView;

    open spec fn view(&self) -> VersionView {
        VersionView {
            major: self.major as nat,
            minor: self.minor as nat,
            patch: self.patch as nat,
            pre: self.pre@,
            build: self.build@,
        }
    }
}

impl VersionView {
    /// The release `major.0.0`.
    pub open spec fn release(major: nat) -> VersionView {
        VersionView { major, minor: 0, patch: 0, pre: Seq::empty(), build: Seq::empty() }
    }

    /// Whether this version comes before the release `major.0.0` in version
    /// order: its major number is smaller, or it is a pre-release of that
    /// very release.
    pub open spec fn precedes_release(self, major: nat) -> bool {
        self.major < major || (self.major == major && self.minor == 0 && self.patch == 0
            && self.pre.len() > 0)
    }

    /// Whether this version is a release with the given major and minor
    /// numbers. A pre-release never is.
    pub open spec fn matches_minor(self, major: nat, minor: nat) -> bool {
        self.major == major && self.minor == minor && self.pre.len() == 0
    }

    /// Whether this version is a release with the major and minor numbers of
    /// `wanted`. A pre-release never is.
    pub open spec fn same_minor(self, wanted: VersionView) -> bool {
        self.matches_minor(wanted.major, wanted.minor)
    }

    /// Whether this version is one that some text reads as.
    pub open spec fn is_parsed(self) -> bool {
        exists|text: Seq<char>| semver_parse(text) == Some(self)
    }

    /// The version written out: the three numbers with dots between them, then
    /// the pre-release tag after a hyphen and the build metadata after a plus
    /// sign, where there are any.
    pub open spec fn text(self) -> Seq<char> {
        decimal(self.major) + seq!['.'] + decimal(self.minor) + seq!['.'] + decimal(self.patch)
            + (if self.pre.len() > 0 {
            seq!['-'] + self.pre
        } else {
            Seq::empty()
        }) + (if self.build.len() > 0 {
            seq!['+'] + self.build
        } else {
            Seq::empty()
        })
    }
}

impl Version {
    /// The release `major.minor.patch`.
    pub fn new(major: u64, minor: u64, patch: u64) -> (v: Version)
        ensures
            v@ == (VersionView {
                major: major as nat,
                minor: minor as nat,
                patch: patch as nat,
                pre: Seq::empty(),
                build: Seq::empty(),
            }),
    {
        Version { major, minor, patch, pre: String::new(), build: String::new() }
    }

    /// A copy of this version.
    pub fn duplicate(&self) -> (v: Version)
        ensures
            v@ == self@,
    {
        Version {
            major: self.major,
            minor: self.minor,
            patch: self.patch,
            pre: self.pre.clone(),
            build: self.build.clone(),
        }
    }

    /// Whether this version comes before the release `major.0.0`.
    pub fn precedes_release(&self, major: u64) -> (r: bool)
        requires
            self@.is_parsed(),
        ensures
            r == self@.precedes_release(major as nat),
    {
        semver_precedes_release(self, major)
    }

    /// Whether this version is a release with the major and minor numbers of
    /// `wanted`.
    pub fn same_minor(&self, wanted: &Version) -> (r: bool)
        requires
            self@.is_parsed(),
        ensures
            r == self@.same_minor(wanted@),
    {
        semver_matches_minor(self, wanted.major, wanted.minor)
    }

    /// The version written out.
    pub fn text(&self) -> (out: String)
        ensures
            out@ == self@.text(),
    {
        let mut chars: Vec<char> = Vec::new();
        push_decimal(&mut chars, self.major);
        chars.push('.');
        push_decimal(&mut chars, self.minor);
        chars.push('.');
        push_decimal(&mut chars, self.patch);
        if !self.pre.as_str().is_empty() {
            chars.push('-');
            push_str(&mut chars, self.pre.as_str());
        }
        if !self.build.as_str().is_empty() {
            chars.push('+');
            push_str(&mut chars, self.build.as_str());
        }
        assert(chars@ =~= self@.text());
        string_from(&chars)
    }
}

/// What `semver::Version::parse` makes of a text: the version it reads, or
/// nothing where the text is no semantic version.
pub uninterp spec fn semver_parse(text: Seq<char>) -> Option<VersionView>;

/// Calls `semver::Version::parse` and moves the fields of its result into a
/// `Version`. The contract claims only that the outcome is a function of the
/// text: the same text always parses to the same version, or always fails.
#[verifier::external_body]
fn semver_version(text: &str) -> (r: Option<Version>)
    ensures
        r is Some <==> semver_parse(text@) is Some,
        r matches Some(v) ==> semver_parse(text@) == Some(v@),
{
    match semver::Version::parse(text) {
        Ok(v) => Some(
            Version {
                major: v.major,
                minor: v.minor,
                patch: v.patch,
                pre: v.pre.as_str().to_string(),
                build: v.build.as_str().to_string(),
            },
        ),
        Err(_) => None,
    }
}

/// Calls the `<` of `semver::Version` on the version and the release
/// `major.0.0`, after the fields were moved into a `semver::Version`. The
/// contract claims what the order of versions is against a release without
/// tag and metadata: the three numbers decide, and where they are equal a
/// version with a pre-release tag comes first and any other does not.
#[verifier::external_body]
fn semver_precedes_release(version: &Version, major: u64) -> (r: bool)
    requires
        version@.is_parsed(),
    ensures
        r == version@.precedes_release(major as nat),
{
    let v = semver::Version {
        major: version.major,
        minor: version.minor,
        patch: version.patch,
        pre: semver::Prerelease::new(&version.pre).unwrap_or_default(),
        build: semver::BuildMetadata::new(&version.build).unwrap_or_default(),
    };
    v < semver::Version::new(major, 0, 0)
}

/// Calls `semver::Comparator::matches` for the comparator that asks for
/// exactly the given major and minor numbers, any patch number and no
/// pre-release tag. The contract claims that it matches the versions with
/// those two numbers and without a pre-release tag, and no others.
#[verifier::external_body]
fn semver_matches_minor(found: &Version, major: u64, minor: u64) -> (r: bool)
    requires
        found@.is_parsed(),
    ensures
        r == found@.matches_minor(major as nat, minor as nat),
{
    let v = semver::Version {
        major: found.major,
        minor: found.minor,
        patch: found.patch,
        pre: semver::Prerelease::new(&found.pre).unwrap_or_default(),
        build: semver::BuildMetadata::new(&found.build).unwrap_or_default(),
    };
    let wanted = semver::Comparator {
        op: semver::Op::Exact,
        major,
        minor: Some(minor),
        patch: None,
        pre: semver::Prerelease::EMPTY,
    };
    wanted.matches(&v)
}

impl Version {
    /// Reads a version from `text`.
    pub fn parse(text: &str) -> (r: Result<Version, Error>)
        ensures
            match semver_parse(text@) {
                Some(v) => r matches Ok(x) && x@ == v && x@.is_parsed(),
                None => r matches Err(Error::InvalidVersion(t)) && t@ == text@,
            },
    {
        match semver_version(text) {
            Some(v) => Ok(v),
            None => Err(Error::InvalidVersion(string_from(&chars_of(text)))),
        }
    }
}

} // verus!
