//! Messages exchanged between the CLI, the native host and the extension.

use vstd::prelude::*;
use vstd::string::*;

verus! {

/// Arbitrary JSON carried through untouched (request parameters, results).
#[verifier::external_type_specification]
#[verifier::external_body]
pub struct ExJsonValue(serde_json::Value);

/// Structured error returned in a response.
#[derive(Debug)]
pub struct ErrorInfo {
    pub code: String,
    pub message: String,
}

/// Sent by the extension right after it connects to the native host.
#[derive(Debug)]
pub struct HelloMessage {
    pub instance_id: String,
    pub browser: String,
    pub extension_id: String,
    pub version: String,
    pub capabilities: Vec<String>,
}

/// A request from the CLI, forwarded by the host to the extension.
#[derive(Debug)]
pub struct RequestMessage {
    pub id: String,
    pub method: String,
    pub params: serde_json::Value,
}

/// A response from the extension, routed back to the CLI.
#[derive(Debug)]
pub struct ResponseMessage {
    pub id: String,
    pub result: Option<serde_json::Value>,
    pub error: Option<ErrorInfo>,
}

/// Top-level message envelope used on every channel.
#[derive(Debug)]
pub enum HostMessage {
    Hello(HelloMessage),
    Request(RequestMessage),
    Response(ResponseMessage),
}

/// Instance metadata written by the host and read by the CLI.
#[derive(Debug)]
pub struct InstanceRegistry {
    pub instance_id: String,
    pub browser: String,
    pub extension_id: String,
    pub version: String,
    pub socket_path: String,
    pub connected_at: String,
    pub last_seen_at: String,
}

impl Clone for InstanceRegistry {
    fn clone(&self) -> (r: Self)
        ensures
            r == *self,
    {
        InstanceRegistry {
            instance_id: self.instance_id.clone(),
            browser: self.browser.clone(),
            extension_id: self.extension_id.clone(),
            version: self.version.clone(),
            socket_path: self.socket_path.clone(),
            connected_at: self.connected_at.clone(),
            last_seen_at: self.last_seen_at.clone(),
        }
    }
}

impl ResponseMessage {
    /// A success response: a result and no error.
    pub fn success(id: String, result: serde_json::Value) -> (r: Self)
        ensures
            r.id == id,
            r.result == Some(result),
            r.error is None,
    {
        ResponseMessage { id, result: Some(result), error: None }
    }

    /// An error response: an error with the given code and message, and no result.
    pub fn error(id: String, code: &str, message: &str) -> (r: Self)
        ensures
            r.id == id,
            r.result is None,
            r.error is Some,
            r.error->0.code@ == code@,
            r.error->0.message@ == message@,
    {
        let info = ErrorInfo { code: String::from_str(code), message: String::from_str(message) };
        ResponseMessage { id, result: None, error: Some(info) }
    }
}

} // verus!
