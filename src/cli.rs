//! The command line, as plain values: a global configuration file override and one
//! subcommand.
use vstd::prelude::*;

use crate::common::BuildDriverType;

verus! {

/// The parsed command line.
#[derive(Debug)]
pub struct Cli {
    /// An additional configuration file, read after the user's own.
    pub config: Option<String>,
    pub command: Commands,
}

/// The subcommands.
#[derive(Debug)]
pub enum Commands {
    /// Build the package.
    Build(BuildSubcommandArgs),
    /// Open a shell into the package's running build.
    Shell(ShellSubcommandArgs),
    Test {},
    Check {},
    /// Print the version.
    Version {},
}

/// Arguments of `build`.
#[derive(Debug)]
pub struct BuildSubcommandArgs {
    pub driver: BuildDriverType,
    /// Overrides the container backend's base image.
    pub driver_docker_build_image: Option<String>,
    /// Overrides whether the container is kept between builds.
    pub driver_persistent: Option<bool>,
    /// The package source; by default the current directory.
    pub source_dir: Option<String>,
    /// Where artifacts go; by default the current directory.
    pub output_dir: Option<String>,
}

/// Arguments of `shell`.
#[derive(Debug)]
pub struct ShellSubcommandArgs {
    /// The package source; by default the current directory.
    pub source_dir: Option<String>,
}

} // verus!
