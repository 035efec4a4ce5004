//! `ptd install` / `ptd uninstall`: the native messaging host manifest.

use vstd::prelude::*;
use vstd::string::*;

verus! {

/// Browser families the native host can be installed for.
#[derive(Debug, Clone, Copy, PartialEq, Eq, Structural)]
pub enum BrowserFamily {
    Chrome,
    Chromium,
    Edge,
    Brave,
    Firefox,
}

impl BrowserFamily {
    /// Firefox takes extension ids; every other family takes origins.
    pub fn is_firefox(&self) -> (r: bool)
        ensures
            r == (*self == BrowserFamily::Firefox),
    {
        match self {
            BrowserFamily::Firefox => true,
            _ => false,
        }
    }
}

/// Arguments of `ptd install`.
#[derive(Debug)]
pub struct InstallArgs {
    /// Target browser family.
    pub browser: BrowserFamily,
    /// Extension ID (required for Chrome-family browsers).
    pub extension_id: Option<String>,
}

/// Arguments of `ptd uninstall`.
#[derive(Debug)]
pub struct UninstallArgs {
    /// Target browser family.
    pub browser: BrowserFamily,
}

/// Who may start the host: extension ids (Firefox) or origins (Chrome family).
#[derive(Debug)]
pub enum AllowedCallers {
    Extensions(Vec<String>),
    Origins(Vec<String>),
}

/// The native messaging host manifest that `ptd install` writes.
#[derive(Debug)]
pub struct NativeHostManifest {
    pub name: String,
    pub description: String,
    pub path: String,
    /// The transport, always `stdio`.
    pub transport: String,
    pub allowed: AllowedCallers,
}

/// Why no manifest could be built.
#[derive(Debug)]
pub enum InstallError {
    /// A Chrome-family browser needs the extension id.
    MissingExtensionId,
}

impl InstallError {
    /// The lines that explain the failure to the user.
    pub fn report(&self) -> (lines: Vec<String>)
        ensures
            lines@.len() == 2,
            lines@[0]@ == "--extension-id is required for Chrome-family browsers."@,
            lines@[1]@ == "Find it at chrome://extensions with Developer Mode enabled."@,
    {
        let mut lines: Vec<String> = Vec::new();
        lines.push(String::from_str("--extension-id is required for Chrome-family browsers."));
        lines.push(String::from_str("Find it at chrome://extensions with Developer Mode enabled."));
        lines
    }
}

/// The description written into every manifest.
pub open spec fn manifest_description() -> Seq<char> {
    "PT-Depiler CLI Native Messaging Host"@
}

/// The id of the PT-Depiler extension for Firefox.
pub open spec fn firefox_extension_id() -> Seq<char> {
    "ptdepiler.ptplugins@gmail.com"@
}

/// The origin of a Chrome extension.
pub open spec fn chrome_origin(extension_id: Seq<char>) -> Seq<char> {
    "chrome-extension://"@ + extension_id + "/"@
}

/// Builds the manifest for `args`, naming the host `host_name` and its
/// binary `host_path`. Chrome-family browsers need the extension id; for
/// Firefox it is not used.
pub fn native_host_manifest(args: &InstallArgs, host_name: &str, host_path: &str) -> (r: Result<
    NativeHostManifest,
    InstallError,
>)
    ensures
        (args.browser != BrowserFamily::Firefox && args.extension_id is None) <==> r is Err,
        r matches Ok(m) ==> {
            &&& m.name@ == host_name@
            &&& m.description@ == manifest_description()
            &&& m.path@ == host_path@
            &&& m.transport@ == "stdio"@
            &&& if args.browser == BrowserFamily::Firefox {
                m.allowed matches AllowedCallers::Extensions(ids) && ids@.len() == 1
                    && ids@[0]@ == firefox_extension_id()
            } else {
                m.allowed matches AllowedCallers::Origins(origins) && origins@.len() == 1
                    && args.extension_id is Some && origins@[0]@ == chrome_origin(
                    args.extension_id->0@,
                )
            }
        },
{
    let allowed = if args.browser.is_firefox() {
        let mut ids: Vec<String> = Vec::new();
        ids.push(String::from_str("ptdepiler.ptplugins@gmail.com"));
        AllowedCallers::Extensions(ids)
    } else {
        match &args.extension_id {
            Some(ext_id) => {
                let mut origin = String::from_str("chrome-extension://");
                origin.append(ext_id.as_str());
                origin.append("/");
                let mut origins: Vec<String> = Vec::new();
                origins.push(origin);
                AllowedCallers::Origins(origins)
            },
            None => {
                return Err(InstallError::MissingExtensionId);
            },
        }
    };
    Ok(NativeHostManifest {
        name: String::from_str(host_name),
        description: String::from_str("PT-Depiler CLI Native Messaging Host"),
        path: String::from_str(host_path),
        transport: String::from_str("stdio"),
        allowed,
    })
}

} // verus!
