//! The forwarding gateway's request plans and result shaping.
//!
//! Each of the three operations is described by a [`RequestPlan`]: the HTTP
//! method, the path under the backend's base address, and the body, if any.
//! The host performs the exchange and reports back an [`Exchange`] value;
//! [`complete`] then turns that outcome into the text the caller receives:
//! the response body verbatim on success — the HTTP status code is ignored
//! on purpose — or a failure text made of the operation's prefix and the
//! underlying cause.

use vstd::prelude::*;

verus! {

/// The three operations the gateway forwards.
#[derive(Clone, Copy, Debug, PartialEq, Eq, Structural)]
pub enum Operation {
    SendMessage,
    GetHistory,
    CheckHealth,
}

/// The HTTP methods the gateway uses.
#[derive(Clone, Copy, Debug, PartialEq, Eq, Structural)]
pub enum Method {
    Get,
    Post,
}

/// The failure-text prefix used when an operation's request cannot be sent.
pub open spec fn send_failure_prefix(op: Operation) -> Seq<char> {
    match op {
        Operation::SendMessage => "Failed to send request: "@,
        Operation::GetHistory => "Failed to get history: "@,
        Operation::CheckHealth => "Failed to check health: "@,
    }
}

/// The failure-text prefix used when a response body cannot be read.
pub open spec fn read_failure_prefix() -> Seq<char> {
    "Failed to read response: "@
}

/// An outbound request, fully determined before any I/O happens: the
/// method, the path under the backend's base address, and the body to
/// send, if any.
pub struct RequestPlan {
    pub method: Method,
    pub path: String,
    pub body: Option<String>,
}

/// The path of the chat-send endpoint.
pub open spec fn chat_path() -> Seq<char> {
    "/api/chat"@
}

/// The path of the history endpoint for a session: the identifier is
/// substituted as the final path segment, unencoded.
pub open spec fn history_path(session_id: Seq<char>) -> Seq<char> {
    "/api/chat/"@ + session_id
}

/// The path of the health endpoint.
pub open spec fn health_path() -> Seq<char> {
    "/api/health"@
}

/// The request plan of a chat-send call: a POST to the chat endpoint whose
/// body is exactly the JSON object holding `message` and `session_id`.
pub fn send_message_request(message: &str, session_id: &str) -> (plan: RequestPlan)
    ensures
        plan.method == Method::Post,
        plan.path@ == chat_path(),
        plan.body matches Some(b) && b@ == crate::body::chat_body(message@, session_id@),
{
    RequestPlan {
        method: Method::Post,
        path: String::from_str("/api/chat"),
        body: Some(crate::body::chat_request_body(message, session_id)),
    }
}

/// The request plan of a history call: a bodyless GET whose path ends in
/// the session identifier.
pub fn get_history_request(session_id: &str) -> (plan: RequestPlan)
    ensures
        plan.method == Method::Get,
        plan.path@ == history_path(session_id@),
        plan.body is None,
{
    RequestPlan {
        method: Method::Get,
        path: String::from_str("/api/chat/").concat(session_id),
        body: None,
    }
}

/// The request plan of a health call: a bodyless GET to the health endpoint.
pub fn check_health_request() -> (plan: RequestPlan)
    ensures
        plan.method == Method::Get,
        plan.path@ == health_path(),
        plan.body is None,
{
    RequestPlan { method: Method::Get, path: String::from_str("/api/health"), body: None }
}

/// What one HTTP exchange came to, as the host reports it back: a response
/// was delivered and its body read in full, or sending the request failed,
/// or the body of a delivered response could not be read.
pub enum Exchange {
    Delivered { status: u16, body: String },
    SendFailed { cause: String },
    ReadFailed { cause: String },
}

/// The text an operation hands its caller for a given exchange outcome:
/// the response body verbatim on success, whatever the status code was,
/// and otherwise a failure text of the fitting prefix and the cause.
pub open spec fn gateway_result(op: Operation, ex: Exchange) -> Result<Seq<char>, Seq<char>> {
    match ex {
        Exchange::Delivered { status: _, body } => Ok(body@),
        Exchange::SendFailed { cause } => Err(send_failure_prefix(op) + cause@),
        Exchange::ReadFailed { cause } => Err(read_failure_prefix() + cause@),
    }
}

/// A `Result` of texts, seen as sequences of characters.
pub open spec fn result_view(r: Result<String, String>) -> Result<Seq<char>, Seq<char>> {
    match r {
        Ok(t) => Ok(t@),
        Err(t) => Err(t@),
    }
}

/// Turns the reported outcome of an operation's exchange into the caller's
/// result. A delivered response succeeds with its body unchanged — the
/// status code is ignored on purpose, so an HTTP error with a readable
/// body passes through as a success — and each failure becomes the
/// operation's failure text.
pub fn complete(op: Operation, ex: Exchange) -> (r: Result<String, String>)
    ensures
        result_view(r) == gateway_result(op, ex),
{
    match ex {
        Exchange::Delivered { status: _, body } => Ok(body),
        Exchange::SendFailed { cause } => {
            let prefix: &str = match op {
                Operation::SendMessage => "Failed to send request: ",
                Operation::GetHistory => "Failed to get history: ",
                Operation::CheckHealth => "Failed to check health: ",
            };
            Err(String::from_str(prefix).concat(cause.as_str()))
        },
        Exchange::ReadFailed { cause } => {
            Err(String::from_str("Failed to read response: ").concat(cause.as_str()))
        },
    }
}

/// The HTTP status code never influences the result: every delivered
/// response, an HTTP error or an empty body included, succeeds with its
/// body verbatim.
pub proof fn lemma_status_ignored(op: Operation, status: u16, body: String)
    ensures
        gateway_result(op, (Exchange::Delivered { status, body })) == Result::<
            Seq<char>,
            Seq<char>,
        >::Ok(body@),
{
}

/// A failed send yields a failure text that begins with the operation's
/// own prefix, followed by the reported cause and nothing else.
pub proof fn lemma_send_failure_text_shape(op: Operation, cause: String)
    ensures
        ({
            let p = send_failure_prefix(op);
            let t = p + cause@;
            &&& gateway_result(op, (Exchange::SendFailed { cause })) == Result::<
                Seq<char>,
                Seq<char>,
            >::Err(t)
            &&& t.take(p.len() as int) == p
            &&& t.skip(p.len() as int) == cause@
            &&& cause@.len() > 0 ==> t.len() > p.len()
        }),
{
    let p = send_failure_prefix(op);
    assert((p + cause@).take(p.len() as int) =~= p);
    assert((p + cause@).skip(p.len() as int) =~= cause@);
}

/// A failed body read yields a failure text that begins with the shared
/// read-failure prefix, followed by the reported cause and nothing else.
pub proof fn lemma_read_failure_text_shape(op: Operation, cause: String)
    ensures
        ({
            let p = read_failure_prefix();
            let t = p + cause@;
            &&& gateway_result(op, (Exchange::ReadFailed { cause })) == Result::<
                Seq<char>,
                Seq<char>,
            >::Err(t)
            &&& t.take(p.len() as int) == p
            &&& t.skip(p.len() as int) == cause@
            &&& cause@.len() > 0 ==> t.len() > p.len()
        }),
{
    let p = read_failure_prefix();
    assert((p + cause@).take(p.len() as int) =~= p);
    assert((p + cause@).skip(p.len() as int) =~= cause@);
}

} // verus!
