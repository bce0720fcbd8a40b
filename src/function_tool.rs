//! The function-style tool invocation contract, and the ice cream maker
//! executor that serves it.
use std::collections::HashMap;

use vstd::prelude::*;

use crate::protocol::{Agent, Parameters, ToolError, MESSAGE_VERSION};
use crate::text::same_text;

verus! {

/// A function-style tool invocation, as the planner sends it.
#[derive(Debug)]
pub struct AgentRequest {
    pub message_version: String,
    pub agent: Agent,
    pub input_text: String,
    pub session_id: String,
    pub action_group: String,
    pub function: String,
    pub parameters: Vec<Parameters>,
    pub session_attributes: HashMap<String, String>,
    pub prompt_session_attributes: HashMap<String, String>,
}

/// The reply to a function-style invocation.
#[derive(Debug)]
pub struct AgentResponse {
    pub message_version: String,
    pub response: Response,
    pub session_attributes: HashMap<String, String>,
    pub prompt_session_attributes: HashMap<String, String>,
}

/// The identifiers echoed from the request, with the result.
#[derive(Debug)]
pub struct Response {
    pub action_group: String,
    pub function: String,
    pub function_response: FunctionResponse,
}

/// The result of a function-style invocation.
#[derive(Debug)]
pub struct FunctionResponse {
    pub response_type: ResponseType,
}

/// A result is either a body or a terminal state, never both and never neither.
#[derive(Debug)]
pub enum ResponseType {
    State { response_state: ResponseState },
    Body { response_body: ResponseBody },
}

/// The terminal signals an executor may return instead of a body.
#[derive(Debug, PartialEq, Eq, Structural, Clone, Copy)]
pub enum ResponseState {
    Failure,
    Reprompt,
}

/// The wire name of a terminal state.
pub open spec fn state_name(s: ResponseState) -> Seq<char> {
    match s {
        ResponseState::Failure => "FAILURE"@,
        ResponseState::Reprompt => "REPROMPT"@,
    }
}

/// The terminal state a wire name denotes, if any.
pub open spec fn state_of(name: Seq<char>) -> Option<ResponseState> {
    if name == "FAILURE"@ {
        Some(ResponseState::Failure)
    } else if name == "REPROMPT"@ {
        Some(ResponseState::Reprompt)
    } else {
        None
    }
}

impl ResponseState {
    /// The wire name of this state.
    pub fn wire_name(&self) -> (r: String)
        ensures
            r@ == state_name(*self),
    {
        match self {
            ResponseState::Failure => "FAILURE".to_owned(),
            ResponseState::Reprompt => "REPROMPT".to_owned(),
        }
    }

    /// The state a wire name denotes; `None` for any other text.
    pub fn from_wire(name: &str) -> (r: Option<ResponseState>)
        ensures
            r == state_of(name@),
    {
        if same_text(name, "FAILURE") {
            Some(ResponseState::Failure)
        } else if same_text(name, "REPROMPT") {
            Some(ResponseState::Reprompt)
        } else {
            None
        }
    }
}

/// Decoding the wire name of a terminal state gives the state back.
pub proof fn lemma_state_round_trip(s: ResponseState)
    ensures
        state_of(state_name(s)) == Some(s),
{
    reveal_strlit("FAILURE");
    reveal_strlit("REPROMPT");
    assert("FAILURE"@.len() != "REPROMPT"@.len());
}

/// Result bodies keyed by content type, in insertion order.
#[derive(Debug)]
pub struct ResponseBody {
    pub content: Vec<(String, ContentType)>,
}

/// One result body, conventionally a JSON document.
#[derive(Debug)]
pub struct ContentType {
    pub body: String,
}

/// The content type under which the ice cream maker answers.
pub const TEXT_CONTENT: &'static str = "TEXT";

/// `resp` answers `req`: the version tag, both attribute maps and the
/// identifying fields are those of the request.
pub open spec fn answers(req: AgentRequest, resp: AgentResponse) -> bool {
    &&& resp.message_version@ == MESSAGE_VERSION@
    &&& resp.session_attributes == req.session_attributes
    &&& resp.prompt_session_attributes == req.prompt_session_attributes
    &&& resp.response.action_group == req.action_group
    &&& resp.response.function == req.function
}

/// `body` holds exactly one entry, `text` under the content type `key`.
pub open spec fn single_body(body: ResponseBody, key: Seq<char>, text: Seq<char>) -> bool {
    &&& body.content@.len() == 1
    &&& body.content@[0].0@ == key
    &&& body.content@[0].1.body@ == text
}

impl FunctionResponse {
    /// Whether the result is a body.
    pub open spec fn has_body(self) -> bool {
        self.response_type is Body
    }

    /// Whether the result is a terminal state.
    pub open spec fn has_state(self) -> bool {
        self.response_type is State
    }
}

/// Every function-style result carries exactly one of a body and a state.
pub proof fn lemma_body_xor_state(r: FunctionResponse)
    ensures
        r.has_body() != r.has_state(),
{
}

impl ResponseBody {
    /// A body with one entry.
    pub fn single(key: String, body: String) -> (r: ResponseBody)
        ensures
            single_body(r, key@, body@),
    {
        let mut content: Vec<(String, ContentType)> = Vec::new();
        content.push((key, ContentType { body }));
        ResponseBody { content }
    }
}

impl AgentResponse {
    /// The response to `request` that carries `result`, echoing the request's
    /// attribute maps and identifiers.
    pub fn reply_to(request: AgentRequest, result: ResponseType) -> (r: AgentResponse)
        ensures
            answers(request, r),
            r.response.function_response.response_type == result,
    {
        AgentResponse {
            message_version: MESSAGE_VERSION.to_owned(),
            response: Response {
                action_group: request.action_group,
                function: request.function,
                function_response: FunctionResponse { response_type: result },
            },
            session_attributes: request.session_attributes,
            prompt_session_attributes: request.prompt_session_attributes,
        }
    }
}

/// The confirmation the ice cream maker gives for `flavor`.
pub open spec fn made_message(flavor: Seq<char>) -> Seq<char> {
    "Ice cream of "@ + flavor + " was made."@
}

/// Runs the ice cream maker on the flavor named by the first parameter. A
/// request without parameters is refused.
pub fn prepare_ice_cream(request: AgentRequest) -> (r: Result<AgentResponse, ToolError>)
    ensures
        request.parameters@.len() == 0 <==> r is Err,
        r is Err ==> r == Err::<AgentResponse, ToolError>(ToolError::MissingParameter),
        r matches Ok(resp) ==> {
            &&& answers(request, resp)
            &&& resp.response.function_response.response_type matches ResponseType::Body {
                response_body,
            } && single_body(
                response_body,
                TEXT_CONTENT@,
                made_message(request.parameters@[0].value@),
            )
        },
{
    if request.parameters.len() == 0 {
        return Err(ToolError::MissingParameter);
    }
    let mut text = "Ice cream of ".to_owned();
    text.append(request.parameters[0].value.as_str());
    text.append(" was made.");
    let body = ResponseBody::single(TEXT_CONTENT.to_owned(), text);
    Ok(AgentResponse::reply_to(request, ResponseType::Body { response_body: body }))
}

} // verus!
