//! The server: it answers messages and keeps the state of the session.
use vstd::prelude::*;

use crate::decode::{
    decode_completion_params, decode_initialize_params, decode_logging_set_level_params,
    decode_notification, decode_prompt_get_params, decode_request, decode_resource_read_params,
    decode_tool_call_params,
};
use crate::json::{items_view, Json, JsonView, Object};
use crate::message::{
    error_response, optional_view, success_response, ErrorView, JsonRpcError, JsonRpcNotification,
    JsonRpcRequest, RequestId, INVALID_PARAMS, INVALID_REQUEST, JSONRPC_VERSION, METHOD_NOT_FOUND,
    PROMPT_NOT_FOUND, RESOURCE_NOT_FOUND, SERVER_NOT_READY, TOOL_NOT_FOUND,
};
use crate::protocol::{
    after_batch, after_initialize, after_logging_set_level, after_message, after_notification,
    after_request, after_single, answer, completion_complete_answer, details, initialize_answer,
    initialize_result, just, logging_set_level_answer, nothing, outcome, prompts_get_answer,
    refusal, replies, reply, resources_read_answer, set_level_differs, tools_call_answer,
    INSTRUCTIONS, MCP_PROTOCOL_VERSION, SERVER_NAME, SERVER_VERSION,
};
use crate::session::{InitState, SessionState};
use crate::text::same_text;
use crate::value::error_text;

verus! {

/// The object without members.
fn empty_object() -> (json: Json)
    ensures
        json@ == nothing(),
{
    Json::Object(Object::new())
}

/// The object with one member.
fn single_member(name: &str, value: Json) -> (json: Json)
    ensures
        json@ == just(name@, value@),
{
    Json::Object(Object::new().with(name, value))
}

/// The object with one member, an empty list.
fn empty_list(name: &str) -> (json: Json)
    ensures
        json@ == just(name@, JsonView::Array(Seq::empty())),
{
    let items: Vec<Json> = Vec::new();
    assert(items_view(items@) =~= Seq::empty());
    single_member(name, Json::Array(items))
}

/// A text as a JSON value.
fn text(s: &str) -> (json: Json)
    ensures
        json@ == JsonView::String(s@),
{
    Json::String(s.to_owned())
}

/// The data that tell why something could not be read.
pub(crate) fn error_details(message: String) -> (data: Option<Json>)
    ensures
        optional_view(data) == details(message@),
{
    Some(single_member("details", Json::String(message)))
}

/// What the server can do, and what it is called.
fn server_description() -> (json: Json)
    ensures
        json@ == initialize_result(),
{
    let resources = Object::new().with("listChanged", Json::Bool(false)).with(
        "subscribe",
        Json::Bool(false),
    );
    let capabilities = Object::new().with("completion", empty_object()).with(
        "logging",
        empty_object(),
    ).with("prompts", single_member("listChanged", Json::Bool(false))).with(
        "resources",
        Json::Object(resources),
    ).with("tools", single_member("listChanged", Json::Bool(false)));
    let server_info = Object::new().with("name", text(SERVER_NAME)).with(
        "version",
        text(SERVER_VERSION),
    );
    Json::Object(
        Object::new().with("protocolVersion", text(MCP_PROTOCOL_VERSION)).with(
            "capabilities",
            Json::Object(capabilities),
        ).with("serverInfo", Json::Object(server_info)).with("instructions", text(INSTRUCTIONS)),
    )
}

/// Answers `initialize`, with which a session begins.
pub fn handle_initialize(id: RequestId, params: Json, state: &mut SessionState) -> (response: Json)
    ensures
        response@ == initialize_answer(id@, params@, old(state)@.init_state),
        final(state)@ == after_initialize(params@, old(state)@),
{
    if state.init_state != InitState::Uninitialized {
        return error_response(
            id,
            INVALID_REQUEST,
            "Initialize can only be called once per session",
            None,
        );
    }
    let params = match decode_initialize_params(params) {
        Ok(params) => params,
        Err(error) => {
            return error_response(
                id,
                INVALID_PARAMS,
                "Invalid initialize params",
                error_details(error_text(&error)),
            );
        },
    };
    if !same_text(params.protocol_version.as_str(), MCP_PROTOCOL_VERSION) {
        let mut supported: Vec<Json> = Vec::new();
        supported.push(text(MCP_PROTOCOL_VERSION));
        assert(items_view(supported@) =~= seq![JsonView::String(MCP_PROTOCOL_VERSION@)]);
        return error_response(
            id,
            INVALID_PARAMS,
            "Unsupported protocol version",
            Some(single_member("supported", Json::Array(supported))),
        );
    }
    state.init_state = InitState::Initializing;
    state.client_info = params.client_info;
    state.client_capabilities = params.capabilities;
    success_response(id, server_description())
}

/// Answers `tools/call`.
pub fn handle_tools_call(id: RequestId, params: Json) -> (response: Json)
    ensures
        response@ == tools_call_answer(id@, params@),
{
    let params = match decode_tool_call_params(params) {
        Ok(params) => params,
        Err(error) => {
            return error_response(
                id,
                INVALID_PARAMS,
                "Invalid tools/call params",
                error_details(error_text(&error)),
            );
        },
    };
    error_response(
        id,
        TOOL_NOT_FOUND,
        "Tool not found",
        Some(single_member("toolName", Json::String(params.name))),
    )
}

/// Answers `resources/read`.
pub fn handle_resources_read(id: RequestId, params: Json) -> (response: Json)
    ensures
        response@ == resources_read_answer(id@, params@),
{
    let params = match decode_resource_read_params(params) {
        Ok(params) => params,
        Err(error) => {
            return error_response(
                id,
                INVALID_PARAMS,
                "Invalid resources/read params",
                error_details(error_text(&error)),
            );
        },
    };
    error_response(
        id,
        RESOURCE_NOT_FOUND,
        "Resource not found",
        Some(single_member("uri", Json::String(params.uri))),
    )
}

/// Answers `prompts/get`.
pub fn handle_prompts_get(id: RequestId, params: Json) -> (response: Json)
    ensures
        response@ == prompts_get_answer(id@, params@),
{
    let params = match decode_prompt_get_params(params) {
        Ok(params) => params,
        Err(error) => {
            return error_response(
                id,
                INVALID_PARAMS,
                "Invalid prompts/get params",
                error_details(error_text(&error)),
            );
        },
    };
    error_response(
        id,
        PROMPT_NOT_FOUND,
        "Prompt not found",
        Some(single_member("name", Json::String(params.name))),
    )
}

/// Answers `completion/complete`.
pub fn handle_completion_complete(id: RequestId, params: Json) -> (response: Json)
    ensures
        response@ == completion_complete_answer(id@, params@),
{
    match decode_completion_params(params) {
        Ok(_) => {},
        Err(error) => {
            return error_response(
                id,
                INVALID_PARAMS,
                "Invalid completion/complete params",
                error_details(error_text(&error)),
            );
        },
    }
    let values: Vec<Json> = Vec::new();
    assert(items_view(values@) =~= Seq::empty());
    let completion = Object::new().with("values", Json::Array(values)).with(
        "hasMore",
        Json::Bool(false),
    );
    success_response(id, single_member("completion", Json::Object(completion)))
}

/// Answers `logging/setLevel` and keeps the level.
pub fn handle_logging_set_level(id: RequestId, params: Json, state: &mut SessionState) -> (response:
    Json)
    ensures
        response@ == logging_set_level_answer(id@, params@),
        final(state)@ == after_logging_set_level(params@, old(state)@),
{
    let params = match decode_logging_set_level_params(params) {
        Ok(params) => params,
        Err(error) => {
            return error_response(
                id,
                INVALID_PARAMS,
                "Invalid logging/setLevel params",
                error_details(error_text(&error)),
            );
        },
    };
    state.log_level = params.level;
    success_response(id, empty_object())
}

/// Whether a method may be called in the state that the session is in.
pub fn ensure_request_allowed(state: &SessionState, method: &str) -> (allowed: Result<
    (),
    JsonRpcError,
>)
    ensures
        match (allowed, refusal(state@.init_state, method@)) {
            (Ok(()), None) => true,
            (Err(error), Some(message)) => error@ == (ErrorView {
                code: SERVER_NOT_READY as int,
                message,
                data: None,
            }),
            _ => false,
        },
{
    if same_text(method, "initialize") || same_text(method, "ping") {
        return Ok(());
    }
    match state.init_state {
        InitState::Uninitialized => Err(
            JsonRpcError {
                code: SERVER_NOT_READY,
                message: "Server not initialized".to_owned(),
                data: None,
            },
        ),
        InitState::Initializing => Err(
            JsonRpcError {
                code: SERVER_NOT_READY,
                message: "Waiting for notifications/initialized".to_owned(),
                data: None,
            },
        ),
        InitState::Initialized => Ok(()),
    }
}

/// Answers a request.
pub fn handle_request(request: JsonRpcRequest, state: &mut SessionState) -> (response: Json)
    ensures
        response@ == answer(request@, old(state)@),
        final(state)@ == after_request(request@, old(state)@),
{
    let JsonRpcRequest { jsonrpc, id, method, params } = request;
    if !same_text(jsonrpc.as_str(), JSONRPC_VERSION) {
        return error_response(
            id,
            INVALID_REQUEST,
            "Invalid jsonrpc version",
            Some(single_member("expected", text(JSONRPC_VERSION))),
        );
    }
    let method = method.as_str();
    if let Err(error) = ensure_request_allowed(state, method) {
        return error_response(id, error.code, error.message.as_str(), error.data);
    }
    proof {
        set_level_differs();
    }
    if same_text(method, "initialize") {
        handle_initialize(id, params, state)
    } else if same_text(method, "ping") {
        success_response(id, empty_object())
    } else if same_text(method, "tools/list") {
        success_response(id, empty_list("tools"))
    } else if same_text(method, "tools/call") {
        handle_tools_call(id, params)
    } else if same_text(method, "resources/list") {
        success_response(id, empty_list("resources"))
    } else if same_text(method, "resources/templates/list") {
        success_response(id, empty_list("resourceTemplates"))
    } else if same_text(method, "resources/read") {
        handle_resources_read(id, params)
    } else if same_text(method, "prompts/list") {
        success_response(id, empty_list("prompts"))
    } else if same_text(method, "prompts/get") {
        handle_prompts_get(id, params)
    } else if same_text(method, "completion/complete") {
        handle_completion_complete(id, params)
    } else if same_text(method, "logging/setLevel") {
        handle_logging_set_level(id, params, state)
    } else {
        error_response(id, METHOD_NOT_FOUND, "Method not found", None)
    }
}

/// Takes note of a notification.
pub fn handle_notification(notification: JsonRpcNotification, state: &mut SessionState)
    ensures
        final(state)@ == after_notification(notification@, old(state)@),
{
    if !same_text(notification.jsonrpc.as_str(), JSONRPC_VERSION) {
        return;
    }
    if same_text(notification.method.as_str(), "notifications/initialized") && state.init_state
        == InitState::Initializing {
        state.init_state = InitState::Initialized;
    }
}

/// Answers a single message, if it asks for a response.
pub fn dispatch_single(value: Json, state: &mut SessionState) -> (response: Option<Json>)
    ensures
        optional_view(response) == reply(value@, old(state)@),
        final(state)@ == after_single(value@, old(state)@),
{
    let object = match value {
        Json::Object(object) => object,
        _ => return Some(error_response(RequestId::Null, INVALID_REQUEST, "Invalid Request", None)),
    };
    if object.get("method").is_none() {
        return Some(error_response(RequestId::Null, INVALID_REQUEST, "Invalid Request", None));
    }
    if object.get("id").is_some() {
        match decode_request(object) {
            Ok(request) => Some(handle_request(request, state)),
            Err(error) => Some(
                error_response(
                    RequestId::Null,
                    INVALID_REQUEST,
                    "Invalid Request",
                    error_details(error_text(&error)),
                ),
            ),
        }
    } else {
        match decode_notification(object) {
            Ok(notification) => handle_notification(notification, state),
            Err(_) => {},
        }
        None
    }
}

/// Answers a message or a batch of them, if anything in it asks for a response.
pub fn dispatch_message(value: Json, state: &mut SessionState) -> (response: Option<Json>)
    ensures
        optional_view(response) == outcome(value@, old(state)@),
        final(state)@ == after_message(value@, old(state)@),
{
    match value {
        Json::Array(values) => {
            if values.len() == 0 {
                return Some(
                    error_response(RequestId::Null, INVALID_REQUEST, "Invalid Request", None),
                );
            }
            let ghost start = state@;
            let ghost all = values@;
            let ghost messages = items_view(values@);
            let mut responses: Vec<Json> = Vec::new();
            assert(items_view(responses@) =~= Seq::empty());
            for item in iter: values
                invariant
                    iter.seq() == all,
                    messages == items_view(all),
                    items_view(responses@) == replies(
                        messages.take(iter.index() as int),
                        start,
                    ),
                    state@ == after_batch(messages.take(iter.index() as int), start),
            {
                let ghost at = iter.index() as int;
                let ghost before = responses@;
                proof {
                    assert(item == all[at]);
                    assert(messages.take(at + 1).drop_last() =~= messages.take(at));
                    assert(messages.take(at + 1).last() == item@);
                }
                if let Some(response) = dispatch_single(item, state) {
                    let ghost answered = response@;
                    responses.push(response);
                    assert(items_view(responses@) =~= items_view(before).push(answered));
                }
            }
            assert(messages.take(messages.len() as int) =~= messages);
            if responses.len() == 0 {
                None
            } else {
                Some(Json::Array(responses))
            }
        },
        other => dispatch_single(other, state),
    }
}

} // verus!
