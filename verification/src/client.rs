//! The CLI side of a request: building it and accepting the reply.

use vstd::prelude::*;
use vstd::string::*;

use crate::protocol::{HostMessage, RequestMessage, ResponseMessage};

verus! {

/// A lower-case hexadecimal digit.
pub open spec fn is_lower_hex_digit(c: char) -> bool {
    ('0' <= c && c <= '9') || ('a' <= c && c <= 'f')
}

/// The hyphenated text of a version 4 UUID, such as
/// `67e55044-10b1-426f-9247-bb680e5fe0c8`.
pub open spec fn is_uuid_v4_text(s: Seq<char>) -> bool {
    &&& s.len() == 36
    &&& forall|i: int|
        0 <= i < 36 ==> if i == 8 || i == 13 || i == 18 || i == 23 {
            s[i] == '-'
        } else {
            is_lower_hex_digit(#[trigger] s[i])
        }
    &&& s[14] == '4'
    &&& (s[19] == '8' || s[19] == '9' || s[19] == 'a' || s[19] == 'b')
}

/// Calls `uuid::Uuid::new_v4` and formats the result with its `Display`
/// impl, which writes the lower-case hyphenated form, with the version
/// digit 4 and the variant digit one of 8, 9, a, b. The contract claims
/// that shape only; the value is random.
#[verifier::external_body]
fn new_request_id() -> (id: String)
    ensures
        is_uuid_v4_text(id@),
{
    uuid::Uuid::new_v4().to_string()
}

/// A request for `method` with `params`, under a fresh random id.
pub fn new_request(method: &str, params: serde_json::Value) -> (msg: HostMessage)
    ensures
        msg matches HostMessage::Request(r) && r.method@ == method@ && r.params == params
            && is_uuid_v4_text(r.id@),
{
    let id = new_request_id();
    HostMessage::Request(RequestMessage { id, method: String::from_str(method), params })
}

/// Why a reply from the host was not accepted.
#[derive(Debug)]
pub enum ReplyError {
    /// The host sent something other than a response.
    UnexpectedMessage,
}

/// Accepts a reply from the host: only a response is a valid reply.
pub fn accept_reply(msg: HostMessage) -> (r: Result<ResponseMessage, ReplyError>)
    ensures
        match msg {
            HostMessage::Response(resp) => r == Ok::<ResponseMessage, ReplyError>(resp),
            _ => r matches Err(ReplyError::UnexpectedMessage),
        },
{
    match msg {
        HostMessage::Response(resp) => Ok(resp),
        _ => Err(ReplyError::UnexpectedMessage),
    }
}

} // verus!
