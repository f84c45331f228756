//! What a tool call makes of the reply OCI sends, and how its result is
//! shown to the MCP client.

use vstd::prelude::*;
use crate::request::HttpMethod;

verus! {

/// What came of sending a request.
#[derive(Debug, PartialEq, Eq)]
pub enum SendOutcome {
    /// No response came; the text of the transport error.
    Failed(String),
    /// A response came; whether its status is a success (2xx), and the
    /// status as text (code and reason, such as `404 Not Found`).
    Responded { success: bool, status: String },
}

/// What the caller does next with a response.
#[derive(Debug, PartialEq, Eq)]
pub enum NextStep {
    /// The call fails with this message.
    Fail(String),
    /// Read the body as text and fail with [`api_error`] of this status.
    ReadErrorBody(String),
    /// Read the body as JSON: that value is the result, and a body that
    /// is no JSON fails with [`json_error`].
    ReadJson,
    /// The call succeeds with the object `{"deleted": true}`.
    Deleted,
}

/// The mathematical value of a [`SendOutcome`].
pub enum OutcomeView {
    Failed(Seq<char>),
    Responded { success: bool, status: Seq<char> },
}

impl View for SendOutcome {
    type V = OutcomeView;

    open spec fn view(&self) -> OutcomeView {
        match self {
            SendOutcome::Failed(e) => OutcomeView::Failed(e@),
            SendOutcome::Responded { success, status } => OutcomeView::Responded {
                success: *success,
                status: status@,
            },
        }
    }
}

/// The mathematical value of a [`NextStep`].
pub enum StepView {
    Fail(Seq<char>),
    ReadErrorBody(Seq<char>),
    ReadJson,
    Deleted,
}

impl View for NextStep {
    type V = StepView;

    open spec fn view(&self) -> StepView {
        match self {
            NextStep::Fail(m) => StepView::Fail(m@),
            NextStep::ReadErrorBody(s) => StepView::ReadErrorBody(s@),
            NextStep::ReadJson => StepView::ReadJson,
            NextStep::Deleted => StepView::Deleted,
        }
    }
}

/// The step after sending a request with `method`: a transport error
/// fails the call, a failing status makes the error body be read, and a
/// success is the JSON body, or for a DELETE the deletion itself.
pub open spec fn next_step(method: HttpMethod, outcome: OutcomeView) -> StepView {
    match outcome {
        OutcomeView::Failed(e) => StepView::Fail(http_error_spec(e)),
        OutcomeView::Responded { success, status } => if !success {
            StepView::ReadErrorBody(status)
        } else if method == HttpMethod::Delete {
            StepView::Deleted
        } else {
            StepView::ReadJson
        },
    }
}

/// The message of a request that got no response.
pub open spec fn http_error_spec(e: Seq<char>) -> Seq<char> {
    "HTTP error: "@ + e
}

/// The message of a response whose status is no success.
pub open spec fn api_error_spec(status: Seq<char>, body: Seq<char>) -> Seq<char> {
    "OCI API error ("@ + status + "): "@ + body
}

/// The message of a success response whose body is no JSON.
pub open spec fn json_error_spec(e: Seq<char>) -> Seq<char> {
    "JSON error: "@ + e
}

/// The message of a request that got no response.
pub fn http_error(e: &str) -> (r: String)
    ensures
        r@ == http_error_spec(e@),
{
    let mut r = String::from_str("HTTP error: ");
    r.append(e);
    r
}

/// The message of a response with a failing status; `body` is the text of
/// the response, `None` where it could not be read (it counts as empty).
pub fn api_error(status: &str, body: Option<String>) -> (r: String)
    ensures
        r@ == api_error_spec(
            status@,
            match body {
                Some(b) => b@,
                None => Seq::empty(),
            },
        ),
{
    let mut r = String::from_str("OCI API error (");
    r.append(status);
    r.append("): ");
    match body {
        Some(b) => {
            r.append(b.as_str());
        },
        None => {
            assert(r@ + Seq::<char>::empty() =~= r@);
        },
    }
    r
}

/// The message of a success response whose body is no JSON.
pub fn json_error(e: &str) -> (r: String)
    ensures
        r@ == json_error_spec(e@),
{
    let mut r = String::from_str("JSON error: ");
    r.append(e);
    r
}

/// The step after sending a request with `method`, as [`next_step`]
/// says.
pub fn after_send(method: HttpMethod, outcome: SendOutcome) -> (r: NextStep)
    ensures
        r@ == next_step(method, outcome@),
{
    match outcome {
        SendOutcome::Failed(e) => NextStep::Fail(http_error(e.as_str())),
        SendOutcome::Responded { success, status } => {
            if !success {
                NextStep::ReadErrorBody(status)
            } else {
                match method {
                    HttpMethod::Delete => NextStep::Deleted,
                    _ => NextStep::ReadJson,
                }
            }
        },
    }
}

/// The text content of a tool call's answer, and whether it reports an
/// error.
#[derive(Debug, PartialEq, Eq)]
pub struct ToolReply {
    pub text: String,
    pub is_error: bool,
}

/// The text shown for a failed tool call.
pub open spec fn tool_error_text(e: Seq<char>) -> Seq<char> {
    "Error: "@ + e
}

/// The answer to a tool call: the result (already written as pretty JSON)
/// as it is, or the error message after `Error: `, marked as an error.
pub fn tool_reply(result: Result<String, String>) -> (r: ToolReply)
    ensures
        match result {
            Ok(text) => r.text@ == text@ && !r.is_error,
            Err(e) => r.text@ == tool_error_text(e@) && r.is_error,
        },
{
    match result {
        Ok(text) => ToolReply { text, is_error: false },
        Err(e) => {
            let mut text = String::from_str("Error: ");
            text.append(e.as_str());
            ToolReply { text, is_error: true }
        },
    }
}

} // verus!
