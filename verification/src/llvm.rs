//! LLVM toolchain utilities.
//!
//! The Rust compiler reports the LLVM version it was built with; the LLVM
//! toolchain on the machine must be of the same major and minor version. Its
//! binaries may be installed under their bare names or under names that end in
//! the major version, and the toolchain records which.

use crate::error::Error;
use crate::format::{decimal, push_decimal};
use crate::text::{chars_of, string_from, text_view};
use crate::version::{semver_parse, Version, VersionView};
use crate::words::{after_prefix, lines, split_lines, strip_prefix, trim, trimmed};
use vstd::prelude::*;

verus! {

/// Major number of the minimum LLVM version supported, `9.0.0`.
pub const LLVM_MIN_MAJOR: u64 = 9;

/// Major number of the first LLVM version no longer supported, `15.0.0`.
pub const LLVM_MAX_MAJOR: u64 = 15;

/// LLVM utility.
#[derive(Copy, Clone, Debug)]
pub enum LlvmUtility {
    /// LLVM archiver.
    Archiver,
    /// LLVM config utility.
    Config,
    /// LLVM C language family front-end compiler.
    Clang,
    /// LLVM bitcode and symbols utility.
    NameMangling,
    /// LLVM optimizer.
    Optimizer,
    /// LLVM static compiler.
    StaticCompiler,
}

/// LLVM toolchain.
#[derive(Debug)]
pub struct LlvmToolchain {
    /// LLVM version.
    pub version: Version,
    /// LLVM utility contains version suffix.
    pub suffix: bool,
}

impl LlvmUtility {
    /// The binary name of the utility.
    pub open spec fn name(self) -> Seq<char> {
        match self {
            LlvmUtility::Archiver => "llvm-ar"@,
            LlvmUtility::Config => "llvm-config"@,
            LlvmUtility::Clang => "clang"@,
            LlvmUtility::NameMangling => "llvm-nm"@,
            LlvmUtility::Optimizer => "opt"@,
            LlvmUtility::StaticCompiler => "llc"@,
        }
    }

    /// The binary name of the utility with the major version after a hyphen.
    pub open spec fn name_with_major(self, major: nat) -> Seq<char> {
        self.name() + seq!['-'] + decimal(major)
    }

    /// Gets the binary name of the utility.
    pub fn as_str(&self) -> (name: &'static str)
        ensures
            name@ == self.name(),
    {
        match self {
            LlvmUtility::Archiver => "llvm-ar",
            LlvmUtility::Config => "llvm-config",
            LlvmUtility::Clang => "clang",
            LlvmUtility::NameMangling => "llvm-nm",
            LlvmUtility::Optimizer => "opt",
            LlvmUtility::StaticCompiler => "llc",
        }
    }

    /// The binary name of the utility with the major version after a hyphen.
    pub fn suffixed_name(&self, major: u64) -> (name: String)
        ensures
            name@ == self.name_with_major(major as nat),
    {
        let mut chars = chars_of(self.as_str());
        chars.push('-');
        push_decimal(&mut chars, major);
        assert(chars@ =~= self.name_with_major(major as nat));
        string_from(&chars)
    }

    /// The name under which to run the utility given the toolchain
    /// information: with the major version after it where the toolchain needs
    /// the suffix, bare where it does not.
    pub fn program_name(&self, toolchain: &LlvmToolchain) -> (name: String)
        ensures
            name@ == if toolchain.suffix {
                self.name_with_major(toolchain.version@.major)
            } else {
                self.name()
            },
    {
        if toolchain.suffix {
            self.suffixed_name(toolchain.version.major)
        } else {
            string_from(&chars_of(self.as_str()))
        }
    }
}

/// The first text of `all`, from index `from` on, that begins with `prefix`,
/// without that prefix.
pub open spec fn first_after(all: Seq<Seq<char>>, prefix: Seq<char>, from: int) -> Option<
    Seq<char>,
>
    decreases all.len() - from,
{
    if from < 0 || from >= all.len() {
        None
    } else {
        match after_prefix(all[from], prefix) {
            Some(rest) => Some(rest),
            None => first_after(all, prefix, from + 1),
        }
    }
}

/// The `LLVM version` field of the compiler's version report: what follows
/// `LLVM version: ` on the first line that begins with it, trimmed.
pub open spec fn llvm_version_field(report: Seq<char>) -> Option<Seq<char>> {
    match first_after(lines(report), "LLVM version: "@, 0) {
        Some(rest) => Some(trimmed(rest)),
        None => None,
    }
}

/// Whether the version is supported: not before `9.0.0`, and before `15.0.0`.
pub open spec fn supported(v: VersionView) -> bool {
    !v.precedes_release(LLVM_MIN_MAJOR as nat) && v.precedes_release(LLVM_MAX_MAJOR as nat)
}

/// Gets the `LLVM version` field of the compiler's version report.
pub fn version_field(report: &str) -> (r: Result<String, Error>)
    ensures
        match llvm_version_field(report@) {
            Some(field) => r matches Ok(s) && s@ == field,
            None => r matches Err(Error::MissingLlvmVersion),
        },
{
    let all = split_lines(report);
    let prefix = chars_of("LLVM version: ");
    let mut i: usize = 0;
    while i < all.len()
        invariant
            i <= all.len(),
            prefix@ == "LLVM version: "@,
            all.deep_view() == lines(report@),
            first_after(lines(report@), prefix@, 0) == first_after(
                lines(report@),
                prefix@,
                i as int,
            ),
        decreases all.len() - i,
    {
        let line = chars_of(all[i].as_str());
        assert(line@ == all.deep_view()[i as int]);
        match strip_prefix(&line, &prefix) {
            Some(rest) => {
                let field = trim(&rest);
                return Ok(string_from(&field));
            },
            None => {},
        }
        i += 1;
    }
    Err(Error::MissingLlvmVersion)
}

/// Accepts a supported version and refuses any other.
pub fn check_supported(version: Version) -> (r: Result<Version, Error>)
    requires
        version@.is_parsed(),
    ensures
        if supported(version@) {
            r matches Ok(v) && v@ == version@
        } else {
            r matches Err(Error::LLVMNotSupported(v)) && v@ == version@
        },
{
    if version.precedes_release(LLVM_MIN_MAJOR) || !version.precedes_release(LLVM_MAX_MAJOR) {
        Err(Error::LLVMNotSupported(version))
    } else {
        Ok(version)
    }
}

/// Reads the LLVM version of the Rust toolchain from the compiler's version
/// report, and refuses one that is not supported.
pub fn rustc_llvm_version(report: &str) -> (r: Result<Version, Error>)
    ensures
        match llvm_version_field(report@) {
            None => r matches Err(Error::MissingLlvmVersion),
            Some(field) => match semver_parse(field) {
                None => r matches Err(Error::InvalidVersion(t)) && t@ == field,
                Some(v) => if supported(v) {
                    r matches Ok(x) && x@ == v
                } else {
                    r matches Err(Error::LLVMNotSupported(x)) && x@ == v
                },
            },
        },
{
    let field = match version_field(report) {
        Ok(field) => field,
        Err(e) => {
            return Err(e);
        },
    };
    match Version::parse(field.as_str()) {
        Ok(version) => check_supported(version),
        Err(e) => Err(e),
    }
}

/// What the two version queries decide: `Ok(false)` where the toolchain under
/// its bare name is of the wanted major and minor version, else `Ok(true)`
/// where the one under the suffixed name is, else a mismatch that names the
/// wanted version and the one found (the bare one where both answered); and
/// `LLVMNotInstalled` where neither answered.
pub open spec fn suffix_decision(
    wanted: VersionView,
    bare: Option<VersionView>,
    suffixed: Option<VersionView>,
) -> Result<bool, (VersionView, VersionView)> {
    match (bare, suffixed) {
        (Some(b), Some(s)) => if b.same_minor(wanted) {
            Ok(false)
        } else if s.same_minor(wanted) {
            Ok(true)
        } else {
            Err((wanted, b))
        },
        (Some(b), None) => if b.same_minor(wanted) {
            Ok(false)
        } else {
            Err((wanted, b))
        },
        (None, Some(s)) => if s.same_minor(wanted) {
            Ok(true)
        } else {
            Err((wanted, s))
        },
        (None, None) => Err((wanted, wanted)),
    }
}

/// The view of an optional version.
pub open spec fn version_view(v: Option<Version>) -> Option<VersionView> {
    match v {
        Some(v) => Some(v@),
        None => None,
    }
}

/// Decides from the versions that the two queries gave whether the toolchain
/// binaries need the version suffix.
pub fn decide_suffix(wanted: &Version, bare: Option<Version>, suffixed: Option<Version>) -> (r:
    Result<bool, Error>)
    requires
        bare matches Some(b) ==> b@.is_parsed(),
        suffixed matches Some(s) ==> s@.is_parsed(),
    ensures
        if bare is None && suffixed is None {
            r matches Err(Error::LLVMNotInstalled)
        } else {
            match suffix_decision(wanted@, version_view(bare), version_view(suffixed)) {
                Ok(suffix) => r matches Ok(flag) && flag == suffix,
                Err((w, found)) => r matches Err(Error::LLVMVersionNotMatch(a, b)) && a@ == w
                    && b@ == found,
            }
        },
{
    match (bare, suffixed) {
        (Some(b), Some(s)) => {
            if b.same_minor(wanted) {
                Ok(false)
            } else if s.same_minor(wanted) {
                Ok(true)
            } else {
                Err(Error::LLVMVersionNotMatch(wanted.duplicate(), b))
            }
        },
        (Some(b), None) => {
            if b.same_minor(wanted) {
                Ok(false)
            } else {
                Err(Error::LLVMVersionNotMatch(wanted.duplicate(), b))
            }
        },
        (None, Some(s)) => {
            if s.same_minor(wanted) {
                Ok(true)
            } else {
                Err(Error::LLVMVersionNotMatch(wanted.duplicate(), s))
            }
        },
        (None, None) => Err(Error::LLVMNotInstalled),
    }
}

/// What a version query's answer parses to: nothing where the query did not
/// answer, else what the trimmed answer reads as.
pub open spec fn answer_version(answer: Option<Seq<char>>) -> Option<Option<VersionView>> {
    match answer {
        Some(text) => Some(semver_parse(trimmed(text))),
        None => None,
    }
}

fn parse_answer(answer: &Option<String>) -> (r: Result<Option<Version>, Error>)
    ensures
        match answer_version(text_view(*answer)) {
            None => r matches Ok(None),
            Some(Some(v)) => r matches Ok(Some(x)) && x@ == v && x@.is_parsed(),
            Some(None) => r matches Err(Error::InvalidVersion(t)) && t@ == trimmed(
                answer.unwrap()@,
            ),
        },
{
    match answer {
        Some(text) => {
            let field = string_from(&trim(&chars_of(text.as_str())));
            match Version::parse(field.as_str()) {
                Ok(v) => Ok(Some(v)),
                Err(e) => Err(e),
            }
        },
        None => Ok(None),
    }
}

/// Get information about LLVM toolchain: given the LLVM version of the Rust
/// toolchain and what `llvm-config --version` printed under its bare name and
/// under its suffixed name (nothing where it could not be run), settles
/// whether the toolchain is compatible and whether its binaries carry the
/// version suffix.
///
/// An answer that is no version number is an error, the bare one first, and
/// that whether or not the other answer would have matched.
pub fn toolchain(rustc_version: Version, config: Option<String>, config_suffix: Option<String>) -> (r:
    Result<LlvmToolchain, Error>)
    ensures
        match (answer_version(text_view(config)), answer_version(text_view(config_suffix))) {
            (None, None) => r matches Err(Error::LLVMNotInstalled),
            (Some(None), _) => r matches Err(Error::InvalidVersion(t)) && t@ == trimmed(
                config.unwrap()@,
            ),
            (_, Some(None)) => r matches Err(Error::InvalidVersion(t)) && t@ == trimmed(
                config_suffix.unwrap()@,
            ),
            (bare, suffixed) => match suffix_decision(
                rustc_version@,
                match bare {
                    Some(v) => v,
                    None => None,
                },
                match suffixed {
                    Some(v) => v,
                    None => None,
                },
            ) {
                Ok(suffix) => r matches Ok(t) && t.version@ == rustc_version@ && t.suffix == suffix,
                Err((w, found)) => r matches Err(Error::LLVMVersionNotMatch(a, b)) && a@ == w
                    && b@ == found,
            },
        },
{
    let bare = match parse_answer(&config) {
        Ok(v) => v,
        Err(e) => {
            return Err(e);
        },
    };
    let suffixed = match parse_answer(&config_suffix) {
        Ok(v) => v,
        Err(e) => {
            return Err(e);
        },
    };
    match decide_suffix(&rustc_version, bare, suffixed) {
        Ok(suffix) => Ok(LlvmToolchain { version: rustc_version, suffix }),
        Err(e) => Err(e),
    }
}

} // verus!
