//! Build driver and build-session lifecycle for Debian source packages.
pub mod cli;
pub mod common;
pub mod settings;
pub mod driver;
pub mod driver_bare;
pub mod driver_docker;
pub mod orchestrator;
pub mod package;
pub mod session;
pub mod shell;
pub mod store;
pub mod text;
pub mod version;
