//! The decisions of the native host: its first message, the messages from
//! the browser and the requests from CLI clients.

use vstd::prelude::*;
use vstd::string::*;

use crate::protocol::{HelloMessage, HostMessage, RequestMessage, ResponseMessage};
use crate::commands::downloader::{downloader_method, DownloaderCommand};
use crate::router::{RouteTable, Router};

verus! {

/// The browser must open with a hello; anything else is handed back.
pub fn expect_hello(msg: HostMessage) -> (r: Result<HelloMessage, HostMessage>)
    ensures
        match msg {
            HostMessage::Hello(h) => r == Ok::<HelloMessage, HostMessage>(h),
            _ => r == Err::<HelloMessage, HostMessage>(msg),
        },
{
    match msg {
        HostMessage::Hello(h) => Ok(h),
        other => Err(other),
    }
}

/// What the host read from the browser.
#[derive(Debug)]
pub enum BrowserEvent {
    Message(HostMessage),
    /// The browser closed the channel.
    Closed,
}

/// Whether the host keeps serving after an event.
#[derive(Debug, PartialEq, Eq, Structural)]
pub enum LoopControl {
    Continue,
    Exit,
}

/// Handles one event from the browser: responses go to the waiting client,
/// other messages are ignored, and a closed channel ends the host.
pub fn on_browser_event(router: &mut Router, event: BrowserEvent) -> (ctl: LoopControl)
    ensures
        match event {
            BrowserEvent::Message(HostMessage::Response(resp)) => ctl == LoopControl::Continue
                && final(router)@ == old(router)@.remove(resp.id@),
            BrowserEvent::Message(_) => ctl == LoopControl::Continue && final(router)@ == old(router)@,
            BrowserEvent::Closed => ctl == LoopControl::Exit && final(router)@ == old(router)@,
        },
{
    match event {
        BrowserEvent::Message(HostMessage::Response(resp)) => {
            let _delivered = router.deliver(resp);
            LoopControl::Continue
        },
        BrowserEvent::Message(_) => LoopControl::Continue,
        BrowserEvent::Closed => LoopControl::Exit,
    }
}

/// Whether `method` is one of `allowed`.
pub open spec fn method_allowed(allowed: Seq<String>, method: Seq<char>) -> bool {
    exists|i: int| 0 <= i < allowed.len() && (#[trigger] allowed[i])@ == method
}

/// The extension methods that CLI clients may call through the host.
pub open spec fn allowlist() -> Seq<Seq<char>> {
    seq![
        "getSiteSearchResult"@,
        "getDownloaderList"@,
        "getDownloaderStatus"@,
        "getDownloaderConfig"@,
        "getDownloaderVersion"@,
    ]
}

/// Every method a CLI command sends is allowed by the host: the search and
/// each `downloader` subcommand's method are on the allowlist.
pub proof fn law_cli_methods_are_allowed()
    ensures
        allowlist().contains("getSiteSearchResult"@),
        allowlist().contains("getDownloaderList"@),
        allowlist().contains("getDownloaderStatus"@),
        allowlist().contains("getDownloaderConfig"@),
        allowlist().contains("getDownloaderVersion"@),
        forall|c: DownloaderCommand| allowlist().contains(#[trigger] downloader_method(c)),
{
    assert(allowlist()[0] == "getSiteSearchResult"@);
    assert(allowlist()[1] == "getDownloaderList"@);
    assert(allowlist()[2] == "getDownloaderStatus"@);
    assert(allowlist()[3] == "getDownloaderConfig"@);
    assert(allowlist()[4] == "getDownloaderVersion"@);
}

/// The allowlist of extension methods, in order.
pub fn allowed_methods() -> (methods: Vec<String>)
    ensures
        methods@.len() == allowlist().len(),
        forall|i: int| 0 <= i < methods@.len() ==> (#[trigger] methods@[i])@ == allowlist()[i],
        methods@.len() == 5,
        methods@[0]@ == "getSiteSearchResult"@,
        methods@[1]@ == "getDownloaderList"@,
        methods@[2]@ == "getDownloaderStatus"@,
        methods@[3]@ == "getDownloaderConfig"@,
        methods@[4]@ == "getDownloaderVersion"@,
{
    let mut methods: Vec<String> = Vec::new();
    methods.push(String::from_str("getSiteSearchResult"));
    methods.push(String::from_str("getDownloaderList"));
    methods.push(String::from_str("getDownloaderStatus"));
    methods.push(String::from_str("getDownloaderConfig"));
    methods.push(String::from_str("getDownloaderVersion"));
    methods
}

/// Checks `method` against the allowlist.
pub fn is_allowed_method(method: &String, allowed: &Vec<String>) -> (r: bool)
    ensures
        r == method_allowed(allowed@, method@),
{
    let mut i: usize = 0;
    while i < allowed.len()
        invariant
            i <= allowed.len(),
            forall|j: int| 0 <= j < i ==> (#[trigger] allowed@[j])@ != method@,
        decreases allowed.len() - i,
    {
        if allowed[i] == *method {
            assert(allowed@[i as int]@ == method@);
            return true;
        }
        i = i + 1;
    }
    false
}

/// The message of the error sent back for a method outside the allowlist.
pub open spec fn not_allowed_message(method: Seq<char>) -> Seq<char> {
    "method '"@ + method + "' is not in the allowlist"@
}

/// What the host does with a message from a CLI client.
#[derive(Debug)]
pub enum CliDecision {
    /// Answer the client at once.
    Reply(ResponseMessage),
    /// Register the request and forward it to the browser.
    Forward(RequestMessage),
}

/// Whether `r` is an error response with the given id, code and message.
pub open spec fn is_error_response(r: ResponseMessage, id: Seq<char>, code: Seq<char>, message: Seq<char>) -> bool {
    &&& r.id@ == id
    &&& r.result is None
    &&& r.error is Some
    &&& r.error->0.code@ == code
    &&& r.error->0.message@ == message
}

/// Decides what to do with a message from a CLI client: only requests for
/// allowed methods are forwarded, unchanged; anything else is answered with
/// an error.
pub fn route_cli_message(msg: HostMessage, allowed: &Vec<String>) -> (d: CliDecision)
    ensures
        match msg {
            HostMessage::Request(req) => if method_allowed(allowed@, req.method@) {
                d == CliDecision::Forward(req)
            } else {
                d matches CliDecision::Reply(r) && is_error_response(
                    r,
                    req.id@,
                    "METHOD_NOT_ALLOWED"@,
                    not_allowed_message(req.method@),
                )
            },
            _ => d matches CliDecision::Reply(r) && is_error_response(
                r,
                "unknown"@,
                "PARSE_ERROR"@,
                "expected a request message"@,
            ),
        },
{
    match msg {
        HostMessage::Request(req) => {
            if is_allowed_method(&req.method, allowed) {
                CliDecision::Forward(req)
            } else {
                let mut text = String::from_str("method '");
                text.append(req.method.as_str());
                text.append("' is not in the allowlist");
                let r = ResponseMessage::error(req.id, "METHOD_NOT_ALLOWED", text.as_str());
                proof {
                    reveal_strlit("METHOD_NOT_ALLOWED");
                }
                CliDecision::Reply(r)
            }
        },
        _ => {
            let r = ResponseMessage::error(String::from_str("unknown"), "PARSE_ERROR", "expected a request message");
            CliDecision::Reply(r)
        },
    }
}

/// Registers a request that the host forwards to the browser, and returns
/// the receiver on which its response will arrive together with the message
/// to forward: the request itself.
pub fn begin_forward(router: &mut Router, request: RequestMessage) -> (out: (
    tokio::sync::oneshot::Receiver<ResponseMessage>,
    HostMessage,
))
    ensures
        final(router)@ == old(router)@.insert(request.id@, final(router)@[request.id@]),
        out.1 == HostMessage::Request(request),
{
    let rx = router.register(request.id.clone());
    (rx, HostMessage::Request(request))
}

/// A forwarded request is answered: once the host has registered it, the
/// browser's response with the same id is delivered, and no longer pending
/// afterwards, while every other pending request stays pending.
pub proof fn law_forwarded_request_is_answered(
    before: RouteTable,
    after_forward: RouteTable,
    request: RequestMessage,
    response: ResponseMessage,
    other: Seq<char>,
)
    requires
        after_forward == before.insert(request.id@, after_forward[request.id@]),
        response.id@ == request.id@,
        other != request.id@,
    ensures
        after_forward.dom().contains(response.id@),
        !after_forward.remove(response.id@).dom().contains(response.id@),
        before.dom().contains(other) ==> after_forward.remove(response.id@).dom().contains(other)
            && after_forward.remove(response.id@)[other] == before[other],
{
}

} // verus!
