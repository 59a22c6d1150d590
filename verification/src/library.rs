//! Managing the Compiler Interrupts library: how it is named, compiled and
//! recorded in the configuration.

use crate::config::{Config, ConfigView};
use crate::digest::{md5_bytes, md5_digest};
use crate::error::Error;
use crate::format::{decimal, hex, join, joined, push_decimal, push_hex};
use crate::paths::{append_suffix_chars, join_chars, joined_path, suffixed};
use crate::text::{chars_of, push_str, string_from};
use crate::words::{split_words, words};
use crate::lists::append_all;
use vstd::prelude::*;

verus! {

/// Default URL for the Compiler Interrupts source code.
pub const DEFAULT_CI_URL: &'static str =
    "https://raw.githubusercontent.com/bitslab/CompilerInterrupts/main/src/CompilerInterrupt.cpp";

/// Default arguments for the Compiler Interrupts library.
pub open spec fn default_args() -> Seq<Seq<char>> {
    seq!["-inst-gran=2"@, "-commit-intv=100"@, "-all-dev=100"@]
}

/// Default arguments for the Compiler Interrupts library.
pub fn default_library_args() -> (args: Vec<String>)
    ensures
        args.deep_view() == default_args(),
{
    let mut args: Vec<String> = Vec::new();
    args.push(string_from(&chars_of("-inst-gran=2")));
    args.push(string_from(&chars_of("-commit-intv=100")));
    args.push(string_from(&chars_of("-all-dev=100")));
    assert(args.deep_view() =~= default_args());
    args
}

/// What is asked of the library.
#[derive(Clone, Copy, Debug, PartialEq, Eq, Structural)]
pub enum Command {
    /// Install it.
    Install,
    /// Uninstall it.
    Uninstall,
    /// Update it.
    Update,
    /// Change its arguments.
    Configure,
    /// Show how it is set up.
    Info,
}

/// Whether a command can go ahead, given whether the library is installed:
/// installing wants it absent, everything else wants it present.
pub fn check_installed(command: Command, installed: bool) -> (r: Result<(), Error>)
    ensures
        match command {
            Command::Install => if installed {
                r matches Err(Error::LibraryAlreadyInstalled)
            } else {
                r is Ok
            },
            _ => if installed {
                r is Ok
            } else {
                r matches Err(Error::LibraryNotInstalled)
            },
        },
{
    match command {
        Command::Install => if installed {
            Err(Error::LibraryAlreadyInstalled)
        } else {
            Ok(())
        },
        _ => if installed {
            Ok(())
        } else {
            Err(Error::LibraryNotInstalled)
        },
    }
}

/// The checksum for a digest: its bytes in lower-case hexadecimal.
pub fn checksum_of(digest: &Vec<u8>) -> (out: String)
    ensures
        out@ == hex(digest@),
{
    let mut chars: Vec<char> = Vec::new();
    push_hex(&mut chars, digest);
    assert(chars@ =~= hex(digest@));
    string_from(&chars)
}

/// The checksum of the library's source code: its MD5 digest in lower-case
/// hexadecimal.
pub fn checksum(source: &[u8]) -> (out: String)
    ensures
        out@ == hex(md5_digest(source@)),
{
    let digest = md5_bytes(source);
    checksum_of(&digest)
}

/// The file name of the library compiled from the source with the given
/// checksum.
pub open spec fn library_name(checksum: Seq<char>) -> Seq<char> {
    "CompilerInterrupt-"@ + checksum + ".so"@
}

/// The file name under which the source code is kept while it is compiled.
pub open spec fn source_name() -> Seq<char> {
    "CompilerInterrupt.cpp"@
}

/// The path of the library inside `dir`.
pub fn library_path(dir: &str, checksum: &str) -> (out: String)
    ensures
        out@ == joined_path(dir@, library_name(checksum@)),
{
    let mut name = chars_of("CompilerInterrupt-");
    push_str(&mut name, checksum);
    push_str(&mut name, ".so");
    string_from(&join_chars(&chars_of(dir), &name))
}

/// The path of the source code inside `dir`.
pub fn source_path(dir: &str) -> (out: String)
    ensures
        out@ == joined_path(dir@, source_name()),
{
    string_from(&join_chars(&chars_of(dir), &chars_of("CompilerInterrupt.cpp")))
}

/// The path of the debug-enabled library beside the library.
pub fn debug_library_path(library_path: &str) -> (r: Result<String, Error>)
    ensures
        match suffixed(library_path@, "debug"@) {
            Some(path) => r matches Ok(p) && p@ == path,
            None => r matches Err(Error::FileStem(p)) && p@ == library_path@,
        },
{
    let path = chars_of(library_path);
    match append_suffix_chars(&path, &chars_of("debug")) {
        Some(p) => Ok(string_from(&p)),
        None => Err(Error::FileStem(string_from(&path))),
    }
}

/// The flags that make the compiler produce a shared object.
pub open spec fn shared_flags(macos: bool) -> Seq<char> {
    if macos {
        "-bundle -undefined dynamic_lookup"@
    } else {
        "-shared"@
    }
}

/// The flags that every compilation of the library gets.
pub open spec fn common_flags() -> Seq<char> {
    "-O3 -Wall -Wextra -Wno-unused-parameter -Wno-implicit-fallthrough -fPIC"@
}

/// The arguments of the compiler: the words of the flags for a shared
/// object, of the flags that LLVM asks for compiling and for linking, and of
/// the common flags; then coloured diagnostics and the LLVM major version as
/// a macro.
pub open spec fn compiler_args_of(
    cxx_flags: Seq<char>,
    ld_flags: Seq<char>,
    llvm_major: nat,
    macos: bool,
) -> Seq<Seq<char>> {
    words(shared_flags(macos)) + words(cxx_flags) + words(ld_flags) + words(common_flags())
        + seq!["-fdiagnostics-color=always"@, "-DLLVM"@ + decimal(llvm_major)]
}

/// Get the compiler with required arguments: its arguments, given what
/// `llvm-config` printed for `--cxxflags` and for `--ldflags`.
pub fn compiler_args(cxx_flags: &str, ld_flags: &str, llvm_major: u64, macos: bool) -> (args: Vec<
    String,
>)
    ensures
        args.deep_view() == compiler_args_of(cxx_flags@, ld_flags@, llvm_major as nat, macos),
{
    let mut args: Vec<String> = split_words(
        if macos {
            "-bundle -undefined dynamic_lookup"
        } else {
            "-shared"
        },
    );
    append_all(&mut args, split_words(cxx_flags));
    append_all(&mut args, split_words(ld_flags));
    append_all(
        &mut args,
        split_words("-O3 -Wall -Wextra -Wno-unused-parameter -Wno-implicit-fallthrough -fPIC"),
    );
    let ghost head = args.deep_view();
    args.push(string_from(&chars_of("-fdiagnostics-color=always")));
    let mut version = chars_of("-DLLVM");
    push_decimal(&mut version, llvm_major);
    args.push(string_from(&version));
    assert(args.deep_view() =~= head + seq![
        "-fdiagnostics-color=always"@,
        "-DLLVM"@ + decimal(llvm_major as nat),
    ]);
    args
}

/// The arguments of one compilation: those of the compiler, the macro for
/// detailed debugging where it is asked for, the input, and the output after
/// `-o`.
pub open spec fn compilation_args(
    compiler: Seq<Seq<char>>,
    input: Seq<char>,
    output: Seq<char>,
    debug: bool,
) -> Seq<Seq<char>> {
    compiler + (if debug {
        seq!["-DDBG_DETAILED"@]
    } else {
        Seq::empty()
    }) + seq![input, "-o"@, output]
}

/// The arguments of one compilation of the library.
pub fn compile_args(compiler: Vec<String>, input: &str, output: &str, debug: bool) -> (args: Vec<
    String,
>)
    ensures
        args.deep_view() == compilation_args(compiler.deep_view(), input@, output@, debug),
{
    let ghost base = compiler.deep_view();
    let mut args = compiler;
    if debug {
        args.push(string_from(&chars_of("-DDBG_DETAILED")));
    }
    args.push(string_from(&chars_of(input)));
    args.push(string_from(&chars_of("-o")));
    args.push(string_from(&chars_of(output)));
    assert(args.deep_view() =~= compilation_args(base, input@, output@, debug));
    args
}

/// Whether the library must be compiled anew: the source code at hand is not
/// the one that the installed library was compiled from.
pub fn needs_update(config: &Config, checksum: &str) -> (r: bool)
    ensures
        r == (config@.checksum != checksum@),
{
    !crate::text::str_eq(config.checksum.as_str(), checksum)
}

impl Config {
    /// The configuration after the library was installed: all of it is new,
    /// and the arguments of the library are the default ones.
    pub fn installed(
        library_path: String,
        library_debug_path: String,
        llvm_version: String,
        checksum: String,
        url: String,
    ) -> (config: Config)
        ensures
            config@ == (ConfigView {
                library_path: library_path@,
                library_debug_path: library_debug_path@,
                library_args: default_args(),
                llvm_version: llvm_version@,
                checksum: checksum@,
                url: url@,
            }),
    {
        Config {
            library_path,
            library_debug_path,
            library_args: default_library_args(),
            llvm_version,
            checksum,
            url,
        }
    }

    /// The configuration after the library was updated: its paths, LLVM
    /// version and checksum are new; its arguments and URL stay.
    pub fn updated(
        self,
        library_path: String,
        library_debug_path: String,
        llvm_version: String,
        checksum: String,
    ) -> (config: Config)
        ensures
            config@ == (ConfigView {
                library_path: library_path@,
                library_debug_path: library_debug_path@,
                llvm_version: llvm_version@,
                checksum: checksum@,
                ..self@
            }),
    {
        Config {
            library_path,
            library_debug_path,
            library_args: self.library_args,
            llvm_version,
            checksum,
            url: self.url,
        }
    }

    /// The configuration with new arguments for the library, where some are
    /// given.
    pub fn configured(self, library_args: Option<Vec<String>>) -> (config: Config)
        ensures
            config@ == (ConfigView {
                library_args: match library_args {
                    Some(args) => args.deep_view(),
                    None => self@.library_args,
                },
                ..self@
            }),
    {
        match library_args {
            Some(args) => Config {
                library_path: self.library_path,
                library_debug_path: self.library_debug_path,
                library_args: args,
                llvm_version: self.llvm_version,
                checksum: self.checksum,
                url: self.url,
            },
            None => self,
        }
    }

    /// The lines that show how the library is set up.
    pub fn info(&self) -> (out: Vec<String>)
        ensures
            out.deep_view() == seq![
                "Library path: "@ + self@.library_path,
                "Library arguments: "@ + joined(self@.library_args, " "@),
                "LLVM version: "@ + self@.llvm_version,
                "Checksum: "@ + self@.checksum,
                "URL: "@ + self@.url,
            ],
    {
        let mut out: Vec<String> = Vec::new();
        out.push(crate::text::catenate("Library path: ", self.library_path.as_str()));
        let args = join(&self.library_args, " ");
        out.push(crate::text::catenate("Library arguments: ", args.as_str()));
        out.push(crate::text::catenate("LLVM version: ", self.llvm_version.as_str()));
        out.push(crate::text::catenate("Checksum: ", self.checksum.as_str()));
        out.push(crate::text::catenate("URL: ", self.url.as_str()));
        assert(out.deep_view() =~= seq![
            "Library path: "@ + self@.library_path,
            "Library arguments: "@ + joined(self@.library_args, " "@),
            "LLVM version: "@ + self@.llvm_version,
            "Checksum: "@ + self@.checksum,
            "URL: "@ + self@.url,
        ]);
        out
    }
}

} // verus!
