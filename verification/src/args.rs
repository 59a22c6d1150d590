//! Arguments of the subcommands.

use vstd::prelude::*;

verus! {

/// Compile and integrate the Compiler Interrupts to a package
#[derive(Debug)]
pub struct BuildArgs {
    /// Crates to skip the integration (space-delimited)
    pub skip_crates: Option<Vec<String>>,
    /// Enable debugging mode for Compiler Interrupts library
    pub debug: bool,
    /// Arguments for `cargo` invocation
    pub cargo_args: Vec<String>,
    /// Log level
    pub log_level: String,
}

/// Run a Compiler Interrupts-integrated binary
#[derive(Debug)]
pub struct RunArgs {
    /// Name of the binary
    pub binary_name: Option<String>,
    /// Arguments for the binary
    pub binary_args: Vec<String>,
    /// Arguments for `cargo` invocation
    pub cargo_args: Vec<String>,
    /// Log level
    pub log_level: String,
}

/// Manage the Compiler Interrupts library
#[derive(Debug)]
pub struct LibraryArgs {
    /// Subcommands for managing the library
    pub command: Option<LibrarySubcommands>,
    /// Log level
    pub log_level: String,
}

/// Subcommands for managing the library
#[derive(Debug)]
pub enum LibrarySubcommands {
    /// Install the Compiler Interrupts library
    Install(InstallArgs),
    /// Uninstall the Compiler Interrupts library
    Uninstall,
    /// Update the Compiler Interrupts library
    Update,
    /// Configure the Compiler Interrupts library
    Config(ConfigArgs),
}

/// Arguments for installing the library
#[derive(Debug)]
pub struct InstallArgs {
    /// Install path for the library
    pub path: Option<String>,
    /// URL to the source code of the library. Use `file://` for local files.
    pub url: Option<String>,
}

/// Arguments for configuring the library
#[derive(Debug)]
pub struct ConfigArgs {
    /// Default arguments for the library (space-delimited)
    pub library_args: Option<Vec<String>>,
}

} // verus!
