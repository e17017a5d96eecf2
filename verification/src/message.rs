//! JSON-RPC messages: what identifies a request, and what answers one.
use vstd::prelude::*;

use crate::json::{Json, JsonView, Object};

verus! {

pub const JSONRPC_VERSION: &'static str = "2.0";

pub const PARSE_ERROR: i64 = -32700;

pub const INVALID_REQUEST: i64 = -32600;

pub const METHOD_NOT_FOUND: i64 = -32601;

pub const INVALID_PARAMS: i64 = -32602;

pub const SERVER_NOT_READY: i64 = -32002;

pub const RESOURCE_NOT_FOUND: i64 = -32010;

pub const PROMPT_NOT_FOUND: i64 = -32011;

pub const TOOL_NOT_FOUND: i64 = -32012;

/// What a client calls a request by. The response carries it back.
#[derive(Debug, Clone, PartialEq)]
pub enum RequestId {
    Integer(i64),
    String(String),
    Null,
}

/// A request with a method and parameters, which is owed a response.
#[derive(Debug)]
pub struct JsonRpcRequest {
    pub jsonrpc: String,
    pub id: RequestId,
    pub method: String,
    pub params: Json,
}

/// A message that is owed no response.
#[derive(Debug)]
pub struct JsonRpcNotification {
    pub jsonrpc: String,
    pub method: String,
}

/// Why a request was refused.
#[derive(Debug)]
pub struct JsonRpcError {
    pub code: i64,
    pub message: String,
    pub data: Option<Json>,
}

/// What a [`RequestId`] is.
pub enum RequestIdView {
    Integer(int),
    String(Seq<char>),
    Null,
}

/// What a [`JsonRpcRequest`] is.
pub struct RequestView {
    pub jsonrpc: Seq<char>,
    pub id: RequestIdView,
    pub method: Seq<char>,
    pub params: JsonView,
}

/// What a [`JsonRpcNotification`] is.
pub struct NotificationView {
    pub jsonrpc: Seq<char>,
    pub method: Seq<char>,
}

/// What a [`JsonRpcError`] is.
pub struct ErrorView {
    pub code: int,
    pub message: Seq<char>,
    pub data: Option<JsonView>,
}

impl View for RequestId {
    type V = RequestIdView;

    open spec fn view(&self) -> RequestIdView {
        match self {
            RequestId::Integer(n) => RequestIdView::Integer(*n as int),
            RequestId::String(s) => RequestIdView::String(s@),
            RequestId::Null => RequestIdView::Null,
        }
    }
}

impl View for JsonRpcRequest {
    type V = RequestView;

    open spec fn view(&self) -> RequestView {
        RequestView {
            jsonrpc: self.jsonrpc@,
            id: self.id@,
            method: self.method@,
            params: self.params@,
        }
    }
}

impl View for JsonRpcNotification {
    type V = NotificationView;

    open spec fn view(&self) -> NotificationView {
        NotificationView { jsonrpc: self.jsonrpc@, method: self.method@ }
    }
}

impl View for JsonRpcError {
    type V = ErrorView;

    open spec fn view(&self) -> ErrorView {
        ErrorView {
            code: self.code as int,
            message: self.message@,
            data: optional_view(self.data),
        }
    }
}

/// What an optional value is.
pub open spec fn optional_view(json: Option<Json>) -> Option<JsonView> {
    match json {
        Some(value) => Some(value@),
        None => None,
    }
}

impl RequestIdView {
    /// The JSON value of an id.
    pub open spec fn json(self) -> JsonView {
        match self {
            RequestIdView::Integer(n) => JsonView::Integer(n),
            RequestIdView::String(s) => JsonView::String(s),
            RequestIdView::Null => JsonView::Null,
        }
    }
}

/// The response that carries the result of a request.
pub open spec fn success(id: RequestIdView, result: JsonView) -> JsonView {
    JsonView::Object(
        map![
            "jsonrpc"@ => JsonView::String(JSONRPC_VERSION@),
            "id"@ => id.json(),
            "result"@ => result,
        ],
    )
}

/// The response that carries an error: its code, its message, and its data or
/// `null`.
pub open spec fn failure(
    id: RequestIdView,
    code: int,
    message: Seq<char>,
    data: Option<JsonView>,
) -> JsonView {
    JsonView::Object(
        map![
            "jsonrpc"@ => JsonView::String(JSONRPC_VERSION@),
            "id"@ => id.json(),
            "error"@ => JsonView::Object(
                map![
                    "code"@ => JsonView::Integer(code),
                    "message"@ => JsonView::String(message),
                    "data"@ => match data {
                        Some(value) => value,
                        None => JsonView::Null,
                    },
                ],
            ),
        ],
    )
}

/// The JSON value of an id.
fn id_json(id: RequestId) -> (json: Json)
    ensures
        json@ == id@.json(),
{
    match id {
        RequestId::Integer(n) => Json::Signed(n),
        RequestId::String(s) => Json::String(s),
        RequestId::Null => Json::Null,
    }
}

/// The response that carries the result of a request.
pub fn success_response(id: RequestId, result: Json) -> (response: Json)
    ensures
        response@ == success(id@, result@),
{
    Json::Object(
        Object::new().with("jsonrpc", Json::String(JSONRPC_VERSION.to_owned())).with(
            "id",
            id_json(id),
        ).with("result", result),
    )
}

/// The response that carries an error.
pub fn error_response(id: RequestId, code: i64, message: &str, data: Option<Json>) -> (response:
    Json)
    ensures
        response@ == failure(id@, code as int, message@, optional_view(data)),
{
    let error = Object::new().with("code", Json::Signed(code)).with(
        "message",
        Json::String(message.to_owned()),
    ).with(
        "data",
        match data {
            Some(value) => value,
            None => Json::Null,
        },
    );
    Json::Object(
        Object::new().with("jsonrpc", Json::String(JSONRPC_VERSION.to_owned())).with(
            "id",
            id_json(id),
        ).with("error", Json::Object(error)),
    )
}

} // verus!
