//! What the server answers, and what becomes of the session.
use vstd::prelude::*;

use crate::decode::{
    completion_params, initialize_params, logging_set_level_params, notification_of,
    prompt_get_params, request_of, resource_read_params, tool_call_params,
};
use crate::json::JsonView;
use crate::message::{
    failure, success, NotificationView, RequestIdView, RequestView, INVALID_PARAMS,
    INVALID_REQUEST, JSONRPC_VERSION, METHOD_NOT_FOUND, PROMPT_NOT_FOUND, RESOURCE_NOT_FOUND,
    SERVER_NOT_READY, TOOL_NOT_FOUND,
};
use crate::session::{InitState, SessionView};

verus! {

pub const MCP_PROTOCOL_VERSION: &'static str = "2025-11-25";

pub const SERVER_NAME: &'static str = "oxide-mcp";

/// The version of this package.
pub const SERVER_VERSION: &'static str = "0.1.0";

pub const INSTRUCTIONS: &'static str =
    "MCP server implementation with full protocol method coverage and strict lifecycle handling.";

/// The object without members.
pub open spec fn nothing() -> JsonView {
    JsonView::Object(Map::empty())
}

/// The object with one member.
pub open spec fn just(name: Seq<char>, value: JsonView) -> JsonView {
    JsonView::Object(map![name => value])
}

/// The data that tell why something could not be read.
pub open spec fn details(message: Seq<char>) -> Option<JsonView> {
    Some(just("details"@, JsonView::String(message)))
}

/// What the server can do, and what it is called.
pub open spec fn initialize_result() -> JsonView {
    let unchanging = just("listChanged"@, JsonView::Bool(false));
    JsonView::Object(
        map![
            "protocolVersion"@ => JsonView::String(MCP_PROTOCOL_VERSION@),
            "capabilities"@ => JsonView::Object(
                map![
                    "completion"@ => nothing(),
                    "logging"@ => nothing(),
                    "prompts"@ => unchanging,
                    "resources"@ => JsonView::Object(
                        map![
                            "listChanged"@ => JsonView::Bool(false),
                            "subscribe"@ => JsonView::Bool(false),
                        ],
                    ),
                    "tools"@ => unchanging,
                ],
            ),
            "serverInfo"@ => JsonView::Object(
                map![
                    "name"@ => JsonView::String(SERVER_NAME@),
                    "version"@ => JsonView::String(SERVER_VERSION@),
                ],
            ),
            "instructions"@ => JsonView::String(INSTRUCTIONS@),
        ],
    )
}

/// Whether a session may begin on these parameters.
pub open spec fn begins(params: JsonView, init_state: InitState) -> bool {
    &&& init_state == InitState::Uninitialized
    &&& initialize_params(params) matches Ok(wanted)
    &&& wanted.protocol_version == MCP_PROTOCOL_VERSION@
}

/// The response to `initialize`.
pub open spec fn initialize_answer(
    id: RequestIdView,
    params: JsonView,
    init_state: InitState,
) -> JsonView {
    if init_state != InitState::Uninitialized {
        failure(
            id,
            INVALID_REQUEST as int,
            "Initialize can only be called once per session"@,
            None,
        )
    } else {
        match initialize_params(params) {
            Err(message) => failure(
                id,
                INVALID_PARAMS as int,
                "Invalid initialize params"@,
                details(message),
            ),
            Ok(wanted) => if wanted.protocol_version != MCP_PROTOCOL_VERSION@ {
                failure(
                    id,
                    INVALID_PARAMS as int,
                    "Unsupported protocol version"@,
                    Some(
                        just(
                            "supported"@,
                            JsonView::Array(seq![JsonView::String(MCP_PROTOCOL_VERSION@)]),
                        ),
                    ),
                )
            } else {
                success(id, initialize_result())
            },
        }
    }
}

/// The session after `initialize`.
pub open spec fn after_initialize(params: JsonView, session: SessionView) -> SessionView {
    if begins(params, session.init_state) {
        let wanted = initialize_params(params)->Ok_0;
        SessionView {
            init_state: InitState::Initializing,
            client_info: wanted.client_info,
            client_capabilities: wanted.capabilities,
            ..session
        }
    } else {
        session
    }
}

/// The response to `tools/call`: there are no tools.
pub open spec fn tools_call_answer(id: RequestIdView, params: JsonView) -> JsonView {
    match tool_call_params(params) {
        Err(message) => failure(
            id,
            INVALID_PARAMS as int,
            "Invalid tools/call params"@,
            details(message),
        ),
        Ok((name, _)) => failure(
            id,
            TOOL_NOT_FOUND as int,
            "Tool not found"@,
            Some(just("toolName"@, JsonView::String(name))),
        ),
    }
}

/// The response to `resources/read`: there are no resources.
pub open spec fn resources_read_answer(id: RequestIdView, params: JsonView) -> JsonView {
    match resource_read_params(params) {
        Err(message) => failure(
            id,
            INVALID_PARAMS as int,
            "Invalid resources/read params"@,
            details(message),
        ),
        Ok(uri) => failure(
            id,
            RESOURCE_NOT_FOUND as int,
            "Resource not found"@,
            Some(just("uri"@, JsonView::String(uri))),
        ),
    }
}

/// The response to `prompts/get`: there are no prompts.
pub open spec fn prompts_get_answer(id: RequestIdView, params: JsonView) -> JsonView {
    match prompt_get_params(params) {
        Err(message) => failure(
            id,
            INVALID_PARAMS as int,
            "Invalid prompts/get params"@,
            details(message),
        ),
        Ok((name, _)) => failure(
            id,
            PROMPT_NOT_FOUND as int,
            "Prompt not found"@,
            Some(just("name"@, JsonView::String(name))),
        ),
    }
}

/// The response to `completion/complete`: no proposals, and no more of them.
pub open spec fn completion_complete_answer(id: RequestIdView, params: JsonView) -> JsonView {
    match completion_params(params) {
        Err(message) => failure(
            id,
            INVALID_PARAMS as int,
            "Invalid completion/complete params"@,
            details(message),
        ),
        Ok(_) => success(
            id,
            just(
                "completion"@,
                JsonView::Object(
                    map![
                        "values"@ => JsonView::Array(Seq::empty()),
                        "hasMore"@ => JsonView::Bool(false),
                    ],
                ),
            ),
        ),
    }
}

/// The response to `logging/setLevel`.
pub open spec fn logging_set_level_answer(id: RequestIdView, params: JsonView) -> JsonView {
    match logging_set_level_params(params) {
        Err(message) => failure(
            id,
            INVALID_PARAMS as int,
            "Invalid logging/setLevel params"@,
            details(message),
        ),
        Ok(_) => success(id, nothing()),
    }
}

/// The session after `logging/setLevel`.
pub open spec fn after_logging_set_level(params: JsonView, session: SessionView) -> SessionView {
    match logging_set_level_params(params) {
        Err(_) => session,
        Ok(level) => SessionView { log_level: level, ..session },
    }
}

/// Why a method may not be called yet. `initialize` and `ping` always may.
pub open spec fn refusal(init_state: InitState, method: Seq<char>) -> Option<Seq<char>> {
    if method == "initialize"@ || method == "ping"@ {
        None
    } else {
        match init_state {
            InitState::Uninitialized => Some("Server not initialized"@),
            InitState::Initializing => Some("Waiting for notifications/initialized"@),
            InitState::Initialized => None,
        }
    }
}

/// The response to a method that may be called.
pub open spec fn method_answer(
    id: RequestIdView,
    method: Seq<char>,
    params: JsonView,
    init_state: InitState,
) -> JsonView {
    let empty_list = JsonView::Array(Seq::empty());
    if method == "initialize"@ {
        initialize_answer(id, params, init_state)
    } else if method == "ping"@ {
        success(id, nothing())
    } else if method == "tools/list"@ {
        success(id, just("tools"@, empty_list))
    } else if method == "tools/call"@ {
        tools_call_answer(id, params)
    } else if method == "resources/list"@ {
        success(id, just("resources"@, empty_list))
    } else if method == "resources/templates/list"@ {
        success(id, just("resourceTemplates"@, empty_list))
    } else if method == "resources/read"@ {
        resources_read_answer(id, params)
    } else if method == "prompts/list"@ {
        success(id, just("prompts"@, empty_list))
    } else if method == "prompts/get"@ {
        prompts_get_answer(id, params)
    } else if method == "completion/complete"@ {
        completion_complete_answer(id, params)
    } else if method == "logging/setLevel"@ {
        logging_set_level_answer(id, params)
    } else {
        failure(id, METHOD_NOT_FOUND as int, "Method not found"@, None)
    }
}

/// No other method is called `logging/setLevel`.
pub(crate) proof fn set_level_differs()
    ensures
        "logging/setLevel"@ != "initialize"@,
        "logging/setLevel"@ != "ping"@,
        "logging/setLevel"@ != "tools/list"@,
        "logging/setLevel"@ != "tools/call"@,
        "logging/setLevel"@ != "resources/list"@,
        "logging/setLevel"@ != "resources/templates/list"@,
        "logging/setLevel"@ != "resources/read"@,
        "logging/setLevel"@ != "prompts/list"@,
        "logging/setLevel"@ != "prompts/get"@,
        "logging/setLevel"@ != "completion/complete"@,
{
    reveal_strlit("logging/setLevel");
    reveal_strlit("initialize");
    reveal_strlit("ping");
    reveal_strlit("tools/list");
    reveal_strlit("tools/call");
    reveal_strlit("resources/list");
    reveal_strlit("resources/templates/list");
    reveal_strlit("resources/read");
    reveal_strlit("prompts/list");
    reveal_strlit("prompts/get");
    reveal_strlit("completion/complete");
    assert("logging/setLevel"@.len() == 16);
}

/// The response to a request.
pub open spec fn answer(request: RequestView, session: SessionView) -> JsonView {
    if request.jsonrpc != JSONRPC_VERSION@ {
        failure(
            request.id,
            INVALID_REQUEST as int,
            "Invalid jsonrpc version"@,
            Some(just("expected"@, JsonView::String(JSONRPC_VERSION@))),
        )
    } else {
        match refusal(session.init_state, request.method) {
            Some(message) => failure(request.id, SERVER_NOT_READY as int, message, None),
            None => method_answer(request.id, request.method, request.params, session.init_state),
        }
    }
}

/// The session after a request.
pub open spec fn after_request(request: RequestView, session: SessionView) -> SessionView {
    if request.jsonrpc != JSONRPC_VERSION@ || refusal(session.init_state, request.method) is Some {
        session
    } else if request.method == "initialize"@ {
        after_initialize(request.params, session)
    } else if request.method == "logging/setLevel"@ {
        after_logging_set_level(request.params, session)
    } else {
        session
    }
}

/// The session after a notification.
pub open spec fn after_notification(
    notification: NotificationView,
    session: SessionView,
) -> SessionView {
    if notification.jsonrpc == JSONRPC_VERSION@ && notification.method
        == "notifications/initialized"@ && session.init_state == InitState::Initializing {
        SessionView { init_state: InitState::Initialized, ..session }
    } else {
        session
    }
}

/// The response to what is not a message at all.
pub open spec fn invalid_request() -> JsonView {
    failure(RequestIdView::Null, INVALID_REQUEST as int, "Invalid Request"@, None)
}

/// Whether a message asks for a response: it has a method and an id.
pub open spec fn is_request(message: JsonView) -> bool {
    message.member("method"@) is Some && message.member("id"@) is Some
}

/// Whether a message asks for no response: it has a method and no id.
pub open spec fn is_notification(message: JsonView) -> bool {
    message.member("method"@) is Some && message.member("id"@) is None
}

/// The response to a single message, where it gets one.
pub open spec fn reply(message: JsonView, session: SessionView) -> Option<JsonView> {
    if is_notification(message) {
        None
    } else if is_request(message) {
        match request_of(message->Object_0) {
            Ok(request) => Some(answer(request, session)),
            Err(why) => Some(
                failure(
                    RequestIdView::Null,
                    INVALID_REQUEST as int,
                    "Invalid Request"@,
                    details(why),
                ),
            ),
        }
    } else {
        Some(invalid_request())
    }
}

/// The session after a single message.
pub open spec fn after_single(message: JsonView, session: SessionView) -> SessionView {
    if is_notification(message) {
        match notification_of(message->Object_0) {
            Ok(notification) => after_notification(notification, session),
            Err(_) => session,
        }
    } else if is_request(message) {
        match request_of(message->Object_0) {
            Ok(request) => after_request(request, session),
            Err(_) => session,
        }
    } else {
        session
    }
}

/// The session after messages one by one.
pub open spec fn after_batch(messages: Seq<JsonView>, session: SessionView) -> SessionView
    decreases messages.len(),
{
    if messages.len() == 0 {
        session
    } else {
        after_single(messages.last(), after_batch(messages.drop_last(), session))
    }
}

/// The responses to messages one by one, each in the session that the messages
/// before it left behind.
pub open spec fn replies(messages: Seq<JsonView>, session: SessionView) -> Seq<JsonView>
    decreases messages.len(),
{
    if messages.len() == 0 {
        Seq::empty()
    } else {
        let before = replies(messages.drop_last(), session);
        match reply(messages.last(), after_batch(messages.drop_last(), session)) {
            Some(response) => before.push(response),
            None => before,
        }
    }
}

/// What is sent back for a message or a batch of them.
pub open spec fn outcome(message: JsonView, session: SessionView) -> Option<JsonView> {
    match message {
        JsonView::Array(messages) => if messages.len() == 0 {
            Some(invalid_request())
        } else if replies(messages, session).len() == 0 {
            None
        } else {
            Some(JsonView::Array(replies(messages, session)))
        },
        _ => reply(message, session),
    }
}

/// The session after a message or a batch of them.
pub open spec fn after_message(message: JsonView, session: SessionView) -> SessionView {
    match message {
        JsonView::Array(messages) => after_batch(messages, session),
        _ => after_single(message, session),
    }
}

} // verus!
