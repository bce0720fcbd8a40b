//! The API-style tool invocation contract, and the waiter executor that
//! serves it.
use std::collections::HashMap;

use vstd::prelude::*;

use crate::json::{json_object, json_object_text};
use crate::protocol::{Agent, Parameters, MESSAGE_VERSION};
use crate::text::{has_prefix, same_text};

verus! {

/// An API-style tool invocation, as the planner sends it.
#[derive(Debug)]
pub struct AgentApiRequest {
    pub message_version: String,
    pub agent: Agent,
    pub input_text: String,
    pub session_id: String,
    pub action_group: String,
    pub api_path: String,
    pub http_method: String,
    pub parameters: Vec<Parameters>,
    pub session_attributes: HashMap<String, String>,
    pub prompt_session_attributes: HashMap<String, String>,
    pub request_body: RequestBody,
}

/// The structured request body, keyed by content type.
#[derive(Debug)]
pub struct RequestBody {
    pub content: HashMap<String, RequestBodyContentType>,
}

/// The typed properties sent under one content type.
#[derive(Debug)]
pub struct RequestBodyContentType {
    pub properties: Vec<Property>,
}

/// One property of a request body; its type is the declared name, verbatim.
#[derive(Debug)]
pub struct Property {
    pub name: String,
    pub property_type: String,
    pub value: String,
}

/// The reply to an API-style invocation.
#[derive(Debug)]
pub struct AgentApiResponse {
    pub message_version: String,
    pub response: ApiResponse,
    pub session_attributes: HashMap<String, String>,
    pub prompt_session_attributes: HashMap<String, String>,
}

/// The identifiers echoed from the request, with the status and the body.
#[derive(Debug)]
pub struct ApiResponse {
    pub action_group: String,
    pub api_path: String,
    pub http_method: String,
    pub http_status_code: i32,
    pub response_body: ResponseBody,
}

/// Result bodies keyed by content type, in insertion order.
#[derive(Debug)]
pub struct ResponseBody {
    pub content: Vec<(String, ResponseBodyContentType)>,
}

/// One result body, a JSON document.
#[derive(Debug)]
pub struct ResponseBodyContentType {
    pub body: String,
}

/// The content type under which the waiter answers.
pub const JSON_CONTENT: &'static str = "application/json";

/// `resp` answers `req`: the version tag, both attribute maps, the action
/// group, the path and the method are those of the request.
pub open spec fn answers_api(req: AgentApiRequest, resp: AgentApiResponse) -> bool {
    &&& resp.message_version@ == MESSAGE_VERSION@
    &&& resp.session_attributes == req.session_attributes
    &&& resp.prompt_session_attributes == req.prompt_session_attributes
    &&& resp.response.action_group == req.action_group
    &&& resp.response.api_path == req.api_path
    &&& resp.response.http_method == req.http_method
}

/// `body` holds exactly one entry, `text` under the content type `key`.
pub open spec fn single_api_body(body: ResponseBody, key: Seq<char>, text: Seq<char>) -> bool {
    &&& body.content@.len() == 1
    &&& body.content@[0].0@ == key
    &&& body.content@[0].1.body@ == text
}

impl ResponseBody {
    /// A body with one entry.
    pub fn single(key: String, body: String) -> (r: ResponseBody)
        ensures
            single_api_body(r, key@, body@),
    {
        let mut content: Vec<(String, ResponseBodyContentType)> = Vec::new();
        content.push((key, ResponseBodyContentType { body }));
        ResponseBody { content }
    }
}

impl AgentApiResponse {
    /// The response to `request` with the given status and body, echoing the
    /// request's attribute maps and identifiers.
    pub fn reply_to(request: AgentApiRequest, http_status_code: i32, body: ResponseBody) -> (r:
        AgentApiResponse)
        ensures
            answers_api(request, r),
            r.response.http_status_code == http_status_code,
            r.response.response_body == body,
    {
        AgentApiResponse {
            message_version: MESSAGE_VERSION.to_owned(),
            response: ApiResponse {
                action_group: request.action_group,
                api_path: request.api_path,
                http_method: request.http_method,
                http_status_code,
                response_body: body,
            },
            session_attributes: request.session_attributes,
            prompt_session_attributes: request.prompt_session_attributes,
        }
    }
}

/// The actions the waiter knows.
#[derive(Debug, PartialEq, Eq, Structural, Clone, Copy)]
pub enum Route {
    StartOrder,
    AddIceCream,
    RemoveIceCream,
    Unknown,
}

/// Whether `s` begins with `p`.
pub open spec fn starts_with(s: Seq<char>, p: Seq<char>) -> bool {
    p.len() <= s.len() && s.subrange(0, p.len() as int) == p
}

/// The action an API path names: `/start-order` exactly, or a path under
/// `/add-ice-cream/` or `/remove-ice-cream/`.
pub open spec fn route_of(path: Seq<char>) -> Route {
    if path == "/start-order"@ {
        Route::StartOrder
    } else if starts_with(path, "/add-ice-cream/"@) {
        Route::AddIceCream
    } else if starts_with(path, "/remove-ice-cream/"@) {
        Route::RemoveIceCream
    } else {
        Route::Unknown
    }
}

/// The HTTP status the waiter answers an action with.
pub open spec fn status_of(route: Route) -> i32 {
    match route {
        Route::StartOrder => 201,
        Route::AddIceCream => 201,
        Route::RemoveIceCream => 200,
        Route::Unknown => 500,
    }
}

/// The name of the one member of the waiter's JSON reply.
pub open spec fn reply_field(route: Route) -> Seq<char> {
    match route {
        Route::StartOrder => "orderId"@,
        _ => "message"@,
    }
}

/// The value of the one member of the waiter's JSON reply.
pub open spec fn reply_value(route: Route, order_id: Seq<char>) -> Seq<char> {
    match route {
        Route::StartOrder => order_id,
        Route::AddIceCream => "Ice cream added to order "@ + order_id,
        Route::RemoveIceCream => "Ice cream removed from order "@ + order_id,
        Route::Unknown => "Unknown action"@,
    }
}

/// What the waiter decides for one call: the status, and the one member of
/// its JSON reply.
#[derive(Debug)]
pub struct WaiterReply {
    pub status: i32,
    pub field: String,
    pub value: String,
}

/// The action that `api_path` names.
pub fn route(api_path: &str) -> (r: Route)
    ensures
        r == route_of(api_path@),
{
    if same_text(api_path, "/start-order") {
        Route::StartOrder
    } else if has_prefix(api_path, "/add-ice-cream/") {
        Route::AddIceCream
    } else if has_prefix(api_path, "/remove-ice-cream/") {
        Route::RemoveIceCream
    } else {
        Route::Unknown
    }
}

/// The waiter's decision for a call on `api_path` within the order `order_id`.
pub fn waiter_reply(api_path: &str, order_id: &str) -> (r: WaiterReply)
    ensures
        r.status == status_of(route_of(api_path@)),
        r.field@ == reply_field(route_of(api_path@)),
        r.value@ == reply_value(route_of(api_path@), order_id@),
{
    match route(api_path) {
        Route::StartOrder => WaiterReply {
            status: 201,
            field: "orderId".to_owned(),
            value: order_id.to_owned(),
        },
        Route::AddIceCream => {
            let mut value = "Ice cream added to order ".to_owned();
            value.append(order_id);
            WaiterReply { status: 201, field: "message".to_owned(), value }
        },
        Route::RemoveIceCream => {
            let mut value = "Ice cream removed from order ".to_owned();
            value.append(order_id);
            WaiterReply { status: 200, field: "message".to_owned(), value }
        },
        Route::Unknown => WaiterReply {
            status: 500,
            field: "message".to_owned(),
            value: "Unknown action".to_owned(),
        },
    }
}

/// Runs the waiter on one call. `order_id` identifies the order the call
/// belongs to; an unknown path is answered with status 500 and an
/// "Unknown action" message rather than refused.
pub fn serve_order(request: AgentApiRequest, order_id: &str) -> (r: AgentApiResponse)
    ensures
        answers_api(request, r),
        r.response.http_status_code == status_of(route_of(request.api_path@)),
        single_api_body(
            r.response.response_body,
            JSON_CONTENT@,
            json_object_text(
                reply_field(route_of(request.api_path@)),
                reply_value(route_of(request.api_path@), order_id@),
            ),
        ),
{
    let reply = waiter_reply(request.api_path.as_str(), order_id);
    let text = json_object(reply.field.as_str(), reply.value.as_str());
    let body = ResponseBody::single(JSON_CONTENT.to_owned(), text);
    AgentApiResponse::reply_to(request, reply.status, body)
}

} // verus!
