//! The decisions of the CLI subcommands.

pub mod downloader;
pub mod install;
pub mod status;
