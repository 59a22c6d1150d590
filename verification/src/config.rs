//! Configuration for the Compiler Interrupts library.

use crate::text::{chars_of, string_from};
use vstd::prelude::*;

verus! {

/// Configuration for the Compiler Interrupts library.
#[derive(Debug)]
pub struct Config {
    /// Path to the library.
    pub library_path: String,
    /// Path to the debug-enabled library.
    pub library_debug_path: String,
    /// Arguments for the library.
    pub library_args: Vec<String>,
    /// LLVM version used to compile the library.
    pub llvm_version: String,
    /// Checksum of the source code.
    pub checksum: String,
    /// Remote URL for the source code.
    pub url: String,
}

/// The mathematical value of a `Config`.
pub struct ConfigView {
    pub library_path: Seq<char>,
    pub library_debug_path: Seq<char>,
    pub library_args: Seq<Seq<char>>,
    pub llvm_version: Seq<char>,
    pub checksum: Seq<char>,
    pub url: Seq<char>,
}

impl View for Config {
    type V = ConfigView;

    open spec fn view(&self) -> ConfigView {
        ConfigView {
            library_path: self.library_path@,
            library_debug_path: self.library_debug_path@,
            library_args: self.library_args.deep_view(),
            llvm_version: self.llvm_version@,
            checksum: self.checksum@,
            url: self.url@,
        }
    }
}

impl ConfigView {
    /// The configuration of a machine on which the library is not installed:
    /// every field empty.
    pub open spec fn empty() -> ConfigView {
        ConfigView {
            library_path: Seq::empty(),
            library_debug_path: Seq::empty(),
            library_args: Seq::empty(),
            llvm_version: Seq::empty(),
            checksum: Seq::empty(),
            url: Seq::empty(),
        }
    }
}

/// Name of the configuration file inside the configuration directory.
pub open spec fn config_file_name() -> Seq<char> {
    "default.cfg"@
}

/// Name of the configuration directory inside the user's own.
pub open spec fn config_dir_name() -> Seq<char> {
    "cargo-compiler-interrupts"@
}

impl Default for Config {
    fn default() -> (config: Self)
        ensures
            config@ == ConfigView::empty(),
    {
        let config = Config {
            library_path: String::new(),
            library_debug_path: String::new(),
            library_args: Vec::new(),
            llvm_version: String::new(),
            checksum: String::new(),
            url: String::new(),
        };
        assert(config.library_args.deep_view() =~= Seq::<Seq<char>>::empty());
        config
    }
}

impl Config {
    /// Name of the configuration file inside the configuration directory.
    pub fn file_name() -> (name: String)
        ensures
            name@ == config_file_name(),
    {
        string_from(&chars_of("default.cfg"))
    }

    /// Name of the configuration directory inside the user's own.
    pub fn dir_name() -> (name: String)
        ensures
            name@ == config_dir_name(),
    {
        string_from(&chars_of("cargo-compiler-interrupts"))
    }
}

} // verus!
