//! Errors of the Compiler Interrupts integration.

use crate::text::{chars_of, owned, push_str, string_from};
use crate::version::{Version, VersionView};
use vstd::prelude::*;

verus! {

/// What can go wrong.
#[derive(Debug)]
pub enum Error {
    /// Compiler Interrupts library is not installed.
    LibraryNotInstalled,
    /// Compiler Interrupts library is already installed.
    LibraryAlreadyInstalled,
    /// LLVM version between Rust and LLVM toolchain does not match: the
    /// version of the Rust toolchain, then that of the LLVM toolchain.
    LLVMVersionNotMatch(Version, Version),
    /// LLVM toolchain is not installed.
    LLVMNotInstalled,
    /// LLVM version is not supported.
    LLVMNotSupported(Version),
    /// Binary is not available: its name, then the available binaries.
    BinaryNotAvailable(String, String),
    /// Failed to determine which binary to run, with the available binaries.
    BinaryNotDetermine(String),
    /// Package does not have any available CI-integrated binaries.
    IntegratedBinaryNotFound,
    /// Package does not have any available binaries.
    BinaryNotFound,
    /// The path has no file name.
    FileName(String),
    /// The path has no file stem.
    FileStem(String),
    /// The path has no extension.
    Extension(String),
    /// The path has no parent directory.
    ParentDir(String),
    /// A linker invocation without a program name.
    MissingLinkerProgram,
    /// A linker invocation whose output flag is its last word.
    MissingOutputFile,
    /// A linker invocation whose library-path flag is its last word.
    MissingLibraryDir,
    /// A linker invocation that names more than one output file.
    SeveralOutputFiles,
    /// An output-file line without a payload.
    MissingTargetFilenames(String),
    /// The output files disagree on the target directory, or name none.
    TargetDirectory,
    /// The compiler's version report has no `LLVM version` field.
    MissingLlvmVersion,
    /// A text that is no version number.
    InvalidVersion(String),
    /// A tool ran and reported a failure: the diagnostic, cut short.
    ProcessFailed(String),
    /// A tool reported success and left no output file: the file expected,
    /// then what the tool wrote to its error stream.
    OutputMissing(String, String),
}

/// The mathematical value of an `Error`: the same cases, over the views of
/// what they hold.
pub enum ErrorView {
    LibraryNotInstalled,
    LibraryAlreadyInstalled,
    LLVMVersionNotMatch(VersionView, VersionView),
    LLVMNotInstalled,
    LLVMNotSupported(VersionView),
    BinaryNotAvailable(Seq<char>, Seq<char>),
    BinaryNotDetermine(Seq<char>),
    IntegratedBinaryNotFound,
    BinaryNotFound,
    FileName(Seq<char>),
    FileStem(Seq<char>),
    Extension(Seq<char>),
    ParentDir(Seq<char>),
    MissingLinkerProgram,
    MissingOutputFile,
    MissingLibraryDir,
    SeveralOutputFiles,
    MissingTargetFilenames(Seq<char>),
    TargetDirectory,
    MissingLlvmVersion,
    InvalidVersion(Seq<char>),
    ProcessFailed(Seq<char>),
    OutputMissing(Seq<char>, Seq<char>),
}

impl View for Error {
    type V = ErrorView;

    open spec fn view(&self) -> ErrorView {
        match self {
            Error::LibraryNotInstalled => ErrorView::LibraryNotInstalled,
            Error::LibraryAlreadyInstalled => ErrorView::LibraryAlreadyInstalled,
            Error::LLVMVersionNotMatch(a, b) => ErrorView::LLVMVersionNotMatch(a@, b@),
            Error::LLVMNotInstalled => ErrorView::LLVMNotInstalled,
            Error::LLVMNotSupported(v) => ErrorView::LLVMNotSupported(v@),
            Error::BinaryNotAvailable(a, b) => ErrorView::BinaryNotAvailable(a@, b@),
            Error::BinaryNotDetermine(a) => ErrorView::BinaryNotDetermine(a@),
            Error::IntegratedBinaryNotFound => ErrorView::IntegratedBinaryNotFound,
            Error::BinaryNotFound => ErrorView::BinaryNotFound,
            Error::FileName(p) => ErrorView::FileName(p@),
            Error::FileStem(p) => ErrorView::FileStem(p@),
            Error::Extension(p) => ErrorView::Extension(p@),
            Error::ParentDir(p) => ErrorView::ParentDir(p@),
            Error::MissingLinkerProgram => ErrorView::MissingLinkerProgram,
            Error::MissingOutputFile => ErrorView::MissingOutputFile,
            Error::MissingLibraryDir => ErrorView::MissingLibraryDir,
            Error::SeveralOutputFiles => ErrorView::SeveralOutputFiles,
            Error::MissingTargetFilenames(l) => ErrorView::MissingTargetFilenames(l@),
            Error::TargetDirectory => ErrorView::TargetDirectory,
            Error::MissingLlvmVersion => ErrorView::MissingLlvmVersion,
            Error::InvalidVersion(t) => ErrorView::InvalidVersion(t@),
            Error::ProcessFailed(d) => ErrorView::ProcessFailed(d@),
            Error::OutputMissing(f, e) => ErrorView::OutputMissing(f@, e@),
        }
    }
}

/// The view of a text or an error.
pub open spec fn text_result(r: Result<String, Error>) -> Result<Seq<char>, ErrorView> {
    match r {
        Ok(s) => Ok(s@),
        Err(e) => Err(e@),
    }
}

impl ErrorView {
    /// The error in words.
    pub open spec fn message(self) -> Seq<char> {
        match self {
            ErrorView::LibraryNotInstalled =>
                "Compiler Interrupts library is not installed\nRun `cargo-lib-ci install` to install the library"@,
            ErrorView::LibraryAlreadyInstalled => "Compiler Interrupts library is already installed"@,
            ErrorView::LLVMVersionNotMatch(rust, llvm) => "LLVM version from Rust toolchain ("@
                + rust.text() + ") does not match with the version from LLVM toolchain ("@
                + llvm.text() + ")"@,
            ErrorView::LLVMNotInstalled => "Unable to locate the LLVM compiler toolchain"@,
            ErrorView::LLVMNotSupported(version) => "LLVM version "@ + version.text()
                + " is not supported. Supported LLVM versions are from 9.0.0 to before 15.0.0"@,
            ErrorView::BinaryNotAvailable(name, all) => "Failed to execute the binary '"@ + name
                + "'\nAvailable binaries: "@ + all,
            ErrorView::BinaryNotDetermine(all) =>
                "Could not determine which binary to run\nRun `cargo-run-ci --bin <NAME>` to specify a binary\nAvailable binaries: "@
                    + all,
            ErrorView::IntegratedBinaryNotFound =>
                "Package does not have any available CI-integrated binaries\nRun `cargo-build-ci` to build the package first"@,
            ErrorView::BinaryNotFound => "Package does not have any available binaries"@,
            ErrorView::FileName(path) => "failed to get file name `"@ + path + "`"@,
            ErrorView::FileStem(path) => "failed to get file stem `"@ + path + "`"@,
            ErrorView::Extension(path) => "failed to get extension `"@ + path + "`"@,
            ErrorView::ParentDir(path) => "failed to get parent dir `"@ + path + "`"@,
            ErrorView::MissingLinkerProgram => "missing linker program name"@,
            ErrorView::MissingOutputFile => "missing output file"@,
            ErrorView::MissingLibraryDir => "missing library dir"@,
            ErrorView::SeveralOutputFiles => "more than one output file"@,
            ErrorView::MissingTargetFilenames(line) => "missing target filenames `"@ + line + "`"@,
            ErrorView::TargetDirectory => "failed to parse target directory"@,
            ErrorView::MissingLlvmVersion => "expect `LLVM version` field"@,
            ErrorView::InvalidVersion(text) => "invalid version `"@ + text + "`"@,
            ErrorView::ProcessFailed(diagnostic) => diagnostic,
            ErrorView::OutputMissing(file, stderr) =>
                "process returned success but output file does not exist\nexpected file: "@ + file
                    + "\n--- stderr\n"@ + stderr,
        }
    }
}

fn framed(before: &str, middle: &str, after: &str) -> (out: String)
    ensures
        out@ == before@ + middle@ + after@,
{
    let mut chars = chars_of(before);
    push_str(&mut chars, middle);
    push_str(&mut chars, after);
    string_from(&chars)
}

fn two(before: &str, after: &str) -> (out: String)
    ensures
        out@ == before@ + after@,
{
    let mut chars = chars_of(before);
    push_str(&mut chars, after);
    string_from(&chars)
}

impl Error {
    /// The error in words.
    pub fn message(&self) -> (out: String)
        ensures
            out@ == self@.message(),
    {
        match self {
            Error::LibraryNotInstalled => owned("Compiler Interrupts library is not installed\nRun `cargo-lib-ci install` to install the library"),
            Error::LibraryAlreadyInstalled => owned("Compiler Interrupts library is already installed"),
            Error::LLVMVersionNotMatch(rust, llvm) => {
                let head = framed(
                    "LLVM version from Rust toolchain (",
                    rust.text().as_str(),
                    ") does not match with the version from LLVM toolchain (",
                );
                framed(head.as_str(), llvm.text().as_str(), ")")
            },
            Error::LLVMNotInstalled => owned("Unable to locate the LLVM compiler toolchain"),
            Error::LLVMNotSupported(version) => framed(
                "LLVM version ",
                version.text().as_str(),
                " is not supported. Supported LLVM versions are from 9.0.0 to before 15.0.0",
            ),
            Error::BinaryNotAvailable(name, all) => {
                let head = framed(
                    "Failed to execute the binary '",
                    name.as_str(),
                    "'\nAvailable binaries: ",
                );
                two(head.as_str(), all.as_str())
            },
            Error::BinaryNotDetermine(all) => two("Could not determine which binary to run\nRun `cargo-run-ci --bin <NAME>` to specify a binary\nAvailable binaries: ", all.as_str()),
            Error::IntegratedBinaryNotFound => owned("Package does not have any available CI-integrated binaries\nRun `cargo-build-ci` to build the package first"),
            Error::BinaryNotFound => owned("Package does not have any available binaries"),
            Error::FileName(path) => framed("failed to get file name `", path.as_str(), "`"),
            Error::FileStem(path) => framed("failed to get file stem `", path.as_str(), "`"),
            Error::Extension(path) => framed("failed to get extension `", path.as_str(), "`"),
            Error::ParentDir(path) => framed("failed to get parent dir `", path.as_str(), "`"),
            Error::MissingLinkerProgram => owned("missing linker program name"),
            Error::MissingOutputFile => owned("missing output file"),
            Error::MissingLibraryDir => owned("missing library dir"),
            Error::SeveralOutputFiles => owned("more than one output file"),
            Error::MissingTargetFilenames(line) => framed(
                "missing target filenames `",
                line.as_str(),
                "`",
            ),
            Error::TargetDirectory => owned("failed to parse target directory"),
            Error::MissingLlvmVersion => owned("expect `LLVM version` field"),
            Error::InvalidVersion(text) => framed("invalid version `", text.as_str(), "`"),
            Error::ProcessFailed(diagnostic) => owned(diagnostic.as_str()),
            Error::OutputMissing(file, stderr) => {
                let head = framed(
                    "process returned success but output file does not exist\nexpected file: ",
                    file.as_str(),
                    "\n--- stderr\n",
                );
                two(head.as_str(), stderr.as_str())
            },
        }
    }
}

} // verus!
