//! `ptd downloader`: which extension method each subcommand calls.

use vstd::prelude::*;
use vstd::string::*;

verus! {

/// The `downloader` subcommands.
#[derive(Debug)]
pub enum DownloaderCommand {
    /// List all configured downloaders.
    List,
    /// Get downloader status.
    Status { downloader_id: String },
    /// Get downloader config.
    Config { downloader_id: String },
    /// Get downloader version.
    Version { downloader_id: String },
}

/// Arguments of `ptd downloader`.
#[derive(Debug)]
pub struct DownloaderArgs {
    pub command: DownloaderCommand,
}

/// The request a subcommand sends: the method, and the downloader id as
/// its parameter (no parameter for the listing).
#[derive(Debug)]
pub struct DownloaderCall {
    pub method: String,
    pub downloader_id: Option<String>,
}

/// The extension method a `downloader` subcommand calls.
pub open spec fn downloader_method(command: DownloaderCommand) -> Seq<char> {
    match command {
        DownloaderCommand::List => "getDownloaderList"@,
        DownloaderCommand::Status { .. } => "getDownloaderStatus"@,
        DownloaderCommand::Config { .. } => "getDownloaderConfig"@,
        DownloaderCommand::Version { .. } => "getDownloaderVersion"@,
    }
}

/// Maps a `downloader` subcommand to the request it sends.
pub fn downloader_call(args: DownloaderArgs) -> (call: DownloaderCall)
    ensures
        call.method@ == downloader_method(args.command),
        match args.command {
            DownloaderCommand::List => call.method@ == "getDownloaderList"@ && call.downloader_id is None,
            DownloaderCommand::Status { downloader_id } => call.method@ == "getDownloaderStatus"@
                && call.downloader_id == Some(downloader_id),
            DownloaderCommand::Config { downloader_id } => call.method@ == "getDownloaderConfig"@
                && call.downloader_id == Some(downloader_id),
            DownloaderCommand::Version { downloader_id } => call.method@ == "getDownloaderVersion"@
                && call.downloader_id == Some(downloader_id),
        },
{
    match args.command {
        DownloaderCommand::List => DownloaderCall {
            method: String::from_str("getDownloaderList"),
            downloader_id: None,
        },
        DownloaderCommand::Status { downloader_id } => DownloaderCall {
            method: String::from_str("getDownloaderStatus"),
            downloader_id: Some(downloader_id),
        },
        DownloaderCommand::Config { downloader_id } => DownloaderCall {
            method: String::from_str("getDownloaderConfig"),
            downloader_id: Some(downloader_id),
        },
        DownloaderCommand::Version { downloader_id } => DownloaderCall {
            method: String::from_str("getDownloaderVersion"),
            downloader_id: Some(downloader_id),
        },
    }
}

} // verus!
