//! Options of the subcommands.

use crate::text::{chars_of, string_from, text_view};
use vstd::prelude::*;

verus! {

/// Options for `cargo-build-ci`.
#[derive(Debug)]
pub struct BuildOpts {
    /// Build artifacts in release mode
    pub release: bool,
    /// Build for the target triple
    pub target: Option<String>,
    /// Build an example artifact
    pub example: Option<String>,
    /// Crates to skip the integration (space-delimited)
    pub skip_crates: Option<Vec<String>>,
    /// Enable debugging mode for the library when integrating
    pub debug_ci: bool,
    /// Use verbose output (-vv very verbose output)
    pub verbose: i32,
}

/// Options for `cargo-run-ci`.
#[derive(Debug)]
pub struct RunOpts {
    /// Run the binary in release mode
    pub release: bool,
    /// Target triple for the binary
    pub target: Option<String>,
    /// Name of the binary
    pub bin: Option<String>,
    /// Arguments for the binary
    pub args: Option<Vec<String>>,
    /// Use verbose output (-vv very verbose output)
    pub verbose: i32,
}

/// Options for `cargo-lib-ci`.
#[derive(Debug)]
pub struct LibraryOpts {
    /// Install the library
    pub install: bool,
    /// Uninstall the library
    pub uninstall: bool,
    /// Update the library
    pub update: bool,
    /// Default arguments for the library (space-delimited)
    pub args: Option<Vec<String>>,
    /// Remote URL to the source code of the library when installing
    pub url: Option<String>,
    /// Destination path for the library when installing
    pub path: Option<String>,
    /// Use verbose output (-vv very verbose output)
    pub verbose: i32,
}

/// The arguments that ask `cargo build` for the build that the options
/// describe: the example, the release mode and the target triple, each where
/// it was asked for.
pub open spec fn cargo_build_args(
    example: Option<Seq<char>>,
    release: bool,
    target: Option<Seq<char>>,
) -> Seq<Seq<char>> {
    (match example {
        Some(name) => seq!["--example"@, name],
        None => Seq::empty(),
    }) + (if release {
        seq!["--release"@]
    } else {
        Seq::empty()
    }) + (match target {
        Some(triple) => seq!["--target"@, triple],
        None => Seq::empty(),
    })
}

/// The name of the build mode directory: `release` in release mode, else
/// `debug`.
pub open spec fn build_mode(release: bool) -> Seq<char> {
    if release {
        "release"@
    } else {
        "debug"@
    }
}

impl BuildOpts {
    /// The arguments that ask `cargo build` for the build that the options
    /// describe.
    pub fn cargo_args(&self) -> (args: Vec<String>)
        ensures
            args.deep_view() == cargo_build_args(
                text_view(self.example),
                self.release,
                text_view(self.target),
            ),
    {
        let mut args: Vec<String> = Vec::new();
        match &self.example {
            Some(name) => {
                args.push(string_from(&chars_of("--example")));
                args.push(name.clone());
            },
            None => {},
        }
        if self.release {
            args.push(string_from(&chars_of("--release")));
        }
        match &self.target {
            Some(triple) => {
                args.push(string_from(&chars_of("--target")));
                args.push(triple.clone());
            },
            None => {},
        }
        assert(args.deep_view() =~= cargo_build_args(
            text_view(self.example),
            self.release,
            text_view(self.target),
        ));
        args
    }

    /// The name of the build mode directory.
    pub fn mode(&self) -> (name: String)
        ensures
            name@ == build_mode(self.release),
    {
        if self.release {
            string_from(&chars_of("release"))
        } else {
            string_from(&chars_of("debug"))
        }
    }
}

/// The arguments of a very verbose build: `build` and `-vv`, then the release
/// mode where the build mode is `release`, and the target triple where there
/// is one.
pub open spec fn verbose_args(mode: Seq<char>, target: Option<Seq<char>>) -> Seq<Seq<char>> {
    seq!["build"@, "-vv"@] + (if mode == "release"@ {
        seq!["--release"@]
    } else {
        Seq::empty()
    }) + (match target {
        Some(triple) => seq!["--target"@, triple],
        None => Seq::empty(),
    })
}

/// The flags that make the compiler emit LLVM IR without debug symbols, keep
/// its temporary files and print the linker invocation.
pub open spec fn extra_rustflags() -> Seq<char> {
    "--emit=llvm-ir -C debuginfo=0 -C save-temps -Z print-link-args"@
}

/// The arguments with which `cargo` is run for a very verbose build.
pub fn verbose_build_args(mode: &str, target: &Option<String>) -> (args: Vec<String>)
    ensures
        args.deep_view() == verbose_args(mode@, text_view(*target)),
{
    let mut args: Vec<String> = Vec::new();
    args.push(string_from(&chars_of("build")));
    args.push(string_from(&chars_of("-vv")));
    if crate::text::str_eq(mode, "release") {
        args.push(string_from(&chars_of("--release")));
    }
    match target {
        Some(triple) => {
            args.push(string_from(&chars_of("--target")));
            args.push(triple.clone());
        },
        None => {},
    }
    assert(args.deep_view() =~= verbose_args(mode@, text_view(*target)));
    args
}

/// The compiler flags for the build: those that the environment holds
/// already, a space, and the extra flags.
pub fn extended_rustflags(existing: &str) -> (flags: String)
    ensures
        flags@ == existing@ + " "@ + extra_rustflags(),
{
    let mut chars = chars_of(existing);
    crate::text::push_str(&mut chars, " ");
    crate::text::push_str(
        &mut chars,
        "--emit=llvm-ir -C debuginfo=0 -C save-temps -Z print-link-args",
    );
    string_from(&chars)
}

} // verus!
