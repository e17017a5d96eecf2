use oxide_mcp::json::Json;
use oxide_mcp::message::{
    error_response, success_response, JsonRpcNotification, JsonRpcRequest, RequestId,
    INVALID_PARAMS, INVALID_REQUEST, METHOD_NOT_FOUND, PROMPT_NOT_FOUND, RESOURCE_NOT_FOUND,
    SERVER_NOT_READY, TOOL_NOT_FOUND,
};
use oxide_mcp::server::{
    dispatch_message, dispatch_single, ensure_request_allowed, handle_initialize,
    handle_notification, handle_request,
};
use oxide_mcp::session::{InitState, SessionState};
use oxide_mcp::value::{parse_json, render_json};

fn json(text: &str) -> Json {
    parse_json(text).expect("JSON")
}

fn at<'a>(value: &'a Json, path: &[&str]) -> &'a Json {
    let mut here = value;
    for name in path {
        here = here.get(name).expect("member");
    }
    here
}

fn integer(value: &Json) -> i64 {
    match value {
        Json::Signed(n) => *n,
        Json::Unsigned(n) => *n as i64,
        other => panic!("not an integer: {:?}", other),
    }
}

fn string(value: &Json) -> &str {
    match value {
        Json::String(s) => s,
        other => panic!("not a string: {:?}", other),
    }
}

fn init_request() -> Json {
    json(
        r#"{
            "jsonrpc": "2.0",
            "id": 1,
            "method": "initialize",
            "params": {
                "protocolVersion": "2025-11-25",
                "capabilities": {},
                "clientInfo": { "name": "test-client", "version": "1.0.0" }
            }
        }"#,
    )
}

fn initialized() -> SessionState {
    SessionState {
        init_state: InitState::Initialized,
        ..SessionState::default()
    }
}

fn answered(message: &str, state: &mut SessionState) -> String {
    render_json(dispatch_message(json(message), state).expect("response"))
}

#[test]
fn initialize_then_initialized_allows_feature_methods() {
    let mut state = SessionState::default();
    let response = dispatch_message(init_request(), &mut state).expect("response");
    assert_eq!(string(at(&response, &["result", "protocolVersion"])), "2025-11-25");
    assert_eq!(state.init_state, InitState::Initializing);

    let notification = json(
        r#"{
            "jsonrpc": "2.0",
            "method": "notifications/initialized",
            "params": {}
        }"#,
    );
    assert!(dispatch_message(notification, &mut state).is_none());
    assert_eq!(state.init_state, InitState::Initialized);

    let tools_list = json(
        r#"{
            "jsonrpc": "2.0",
            "id": 2,
            "method": "tools/list",
            "params": {}
        }"#,
    );
    let tools_response = dispatch_message(tools_list, &mut state).expect("tools response");
    assert!(matches!(at(&tools_response, &["result", "tools"]), Json::Array(_)));
}

#[test]
fn method_rejected_before_initialization() {
    let mut state = SessionState::default();
    let request = json(
        r#"{
            "jsonrpc": "2.0",
            "id": 9,
            "method": "prompts/list",
            "params": {}
        }"#,
    );
    let response = dispatch_message(request, &mut state).expect("response");
    assert_eq!(integer(at(&response, &["error", "code"])), SERVER_NOT_READY);
}

#[test]
fn tools_call_unknown_returns_mcp_error() {
    let mut state = SessionState {
        init_state: InitState::Initialized,
        ..SessionState::default()
    };
    let request = json(
        r#"{
            "jsonrpc": "2.0",
            "id": "call-1",
            "method": "tools/call",
            "params": {
                "name": "unknown_tool",
                "arguments": {}
            }
        }"#,
    );
    let response = dispatch_message(request, &mut state).expect("response");
    assert_eq!(integer(at(&response, &["error", "code"])), TOOL_NOT_FOUND);
}

#[test]
fn empty_batch_is_invalid_request() {
    let mut state = SessionState::default();
    let response = dispatch_message(json("[]"), &mut state).expect("response");
    assert_eq!(integer(at(&response, &["error", "code"])), INVALID_REQUEST);
}

#[test]
fn batch_mixes_notifications_and_requests() {
    let mut state = SessionState {
        init_state: InitState::Initialized,
        ..SessionState::default()
    };
    let batch = json(
        r#"[
            {
                "jsonrpc": "2.0",
                "method": "notifications/initialized",
                "params": {}
            },
            {
                "jsonrpc": "2.0",
                "id": 3,
                "method": "ping",
                "params": {}
            }
        ]"#,
    );
    let response = dispatch_message(batch, &mut state).expect("batch response");
    let Json::Array(responses) = response else {
        panic!("not an array");
    };
    assert_eq!(integer(at(&responses[0], &["id"])), 3);
    assert!(matches!(at(&responses[0], &["result"]), Json::Object(_)));
}

#[test]
fn initialize_describes_the_server() {
    let mut state = SessionState::default();
    let response = dispatch_message(init_request(), &mut state).expect("response");
    assert_eq!(
        render_json(response),
        [
            r#"{"id":1,"jsonrpc":"2.0","result":{"capabilities":{"completion":{},"#,
            r#""logging":{},"prompts":{"listChanged":false},"#,
            r#""resources":{"listChanged":false,"subscribe":false},"#,
            r#""tools":{"listChanged":false}},"#,
            r#""instructions":"MCP server implementation with full protocol method coverage "#,
            r#"and strict lifecycle handling.","protocolVersion":"2025-11-25","#,
            r#""serverInfo":{"name":"oxide-mcp","version":"0.1.0"}}}"#,
        ]
        .concat()
    );
    let info = state.client_info.expect("client info");
    assert_eq!(info.name, "test-client");
    assert_eq!(info.version, "1.0.0");
    assert_eq!(render_json(state.client_capabilities), "{}");
    assert_eq!(state.log_level, "");
}

#[test]
fn fresh_session_knows_nothing() {
    let state = SessionState::default();
    assert_eq!(state.init_state, InitState::Uninitialized);
    assert_eq!(InitState::default(), InitState::Uninitialized);
    assert!(state.client_info.is_none());
    assert_eq!(render_json(state.client_capabilities), "null");
    assert_eq!(state.log_level, "");
}

#[test]
fn initialize_happens_once() {
    let mut state = SessionState::default();
    dispatch_message(init_request(), &mut state);
    let again = render_json(dispatch_message(init_request(), &mut state).expect("response"));
    assert_eq!(
        again,
        r#"{"error":{"code":-32600,"data":null,"message":"Initialize can only be called once per session"},"id":1,"jsonrpc":"2.0"}"#
    );
    assert_eq!(state.init_state, InitState::Initializing);
    assert_eq!(state.client_info.expect("client info").name, "test-client");
}

#[test]
fn initialize_wants_the_supported_version() {
    let mut state = SessionState::default();
    let response = handle_initialize(
        RequestId::String("a".to_string()),
        json(r#"{"protocolVersion":"2024-01-01"}"#),
        &mut state,
    );
    assert_eq!(integer(at(&response, &["error", "code"])), INVALID_PARAMS);
    assert_eq!(
        render_json(response),
        r#"{"error":{"code":-32602,"data":{"supported":["2025-11-25"]},"message":"Unsupported protocol version"},"id":"a","jsonrpc":"2.0"}"#
    );
    assert_eq!(state.init_state, InitState::Uninitialized);
}

#[test]
fn initialize_params_that_cannot_be_read() {
    for (params, why) in [
        (r#"{}"#, "missing field `protocolVersion`"),
        (r#"null"#, "invalid type: null, expected struct InitializeParams"),
        (r#""x""#, "invalid type: string \"x\", expected struct InitializeParams"),
        (r#"[]"#, "invalid length 0, expected struct InitializeParams with 3 elements"),
        (r#"["2025-11-25", {}, null, 4]"#, "invalid length 4, expected fewer elements in array"),
        (
            r#"{"protocolVersion": 1, "clientInfo": 2}"#,
            "invalid type: integer `2`, expected struct ImplementationInfo",
        ),
        (
            r#"{"clientInfo": {"version": false}}"#,
            "invalid type: boolean `false`, expected a string",
        ),
        (r#"{"clientInfo": {"version": "1"}}"#, "missing field `name`"),
        (r#"{"clientInfo": {"name": "1"}}"#, "missing field `version`"),
        (
            r#"{"clientInfo": ["n"]}"#,
            "invalid length 1, expected struct ImplementationInfo with 2 elements",
        ),
        (
            r#"{"clientInfo": []}"#,
            "invalid length 0, expected struct ImplementationInfo with 2 elements",
        ),
        (
            r#"{"clientInfo": ["n", "v", 0]}"#,
            "invalid length 3, expected fewer elements in array",
        ),
    ] {
        let mut state = SessionState::default();
        let response = handle_initialize(RequestId::Null, json(params), &mut state);
        assert_eq!(integer(at(&response, &["error", "code"])), INVALID_PARAMS);
        assert_eq!(string(at(&response, &["error", "message"])), "Invalid initialize params");
        assert_eq!(string(at(&response, &["error", "data", "details"])), why);
        assert_eq!(state.init_state, InitState::Uninitialized);
    }
}

#[test]
fn initialize_params_by_position() {
    let mut state = SessionState::default();
    handle_initialize(
        RequestId::Integer(1),
        json(r#"["2025-11-25", {"roots": [1.5, -2]}, ["n", "v"]]"#),
        &mut state,
    );
    assert_eq!(state.init_state, InitState::Initializing);
    assert_eq!(state.client_info.expect("client info").version, "v");
    assert_eq!(render_json(state.client_capabilities), r#"{"roots":[1.5,-2]}"#);
}

#[test]
fn initialize_without_client_info() {
    let mut state = SessionState::default();
    handle_initialize(
        RequestId::Integer(1),
        json(r#"{"protocolVersion": "2025-11-25", "clientInfo": null}"#),
        &mut state,
    );
    assert_eq!(state.init_state, InitState::Initializing);
    assert!(state.client_info.is_none());
    assert_eq!(render_json(state.client_capabilities), "null");
}

#[test]
fn waiting_for_the_confirmation() {
    let mut state = SessionState::default();
    dispatch_message(init_request(), &mut state);
    assert_eq!(
        answered(r#"{"jsonrpc":"2.0","id":4,"method":"tools/list"}"#, &mut state),
        r#"{"error":{"code":-32002,"data":null,"message":"Waiting for notifications/initialized"},"id":4,"jsonrpc":"2.0"}"#
    );
    assert_eq!(
        answered(r#"{"jsonrpc":"2.0","id":5,"method":"ping"}"#, &mut state),
        r#"{"id":5,"jsonrpc":"2.0","result":{}}"#
    );
}

#[test]
fn only_the_right_confirmation_counts() {
    let mut state = SessionState::default();
    handle_notification(
        JsonRpcNotification {
            jsonrpc: "2.0".to_string(),
            method: "notifications/initialized".to_string(),
        },
        &mut state,
    );
    assert_eq!(state.init_state, InitState::Uninitialized);
    dispatch_message(init_request(), &mut state);
    for message in [
        r#"{"jsonrpc":"1.0","method":"notifications/initialized"}"#,
        r#"{"jsonrpc":"2.0","method":"notifications/other"}"#,
        r#"{"jsonrpc":2,"method":"notifications/initialized"}"#,
        r#"{"method":"notifications/initialized"}"#,
        r#"{"jsonrpc":"2.0","method":null}"#,
    ] {
        assert!(dispatch_message(json(message), &mut state).is_none());
        assert_eq!(state.init_state, InitState::Initializing);
    }
}

#[test]
fn requests_are_allowed_by_stage() {
    let fresh = SessionState::default();
    assert!(ensure_request_allowed(&fresh, "initialize").is_ok());
    assert!(ensure_request_allowed(&fresh, "ping").is_ok());
    let error = ensure_request_allowed(&fresh, "tools/list").expect_err("too early");
    assert_eq!(error.code, SERVER_NOT_READY);
    assert_eq!(error.message, "Server not initialized");
    assert!(error.data.is_none());
    assert!(ensure_request_allowed(&initialized(), "tools/list").is_ok());
}

#[test]
fn methods_of_an_open_session() {
    let mut state = initialized();
    for (method, params, expected) in [
        ("ping", "null", r#""result":{}}"#),
        ("tools/list", "{}", r#""result":{"tools":[]}}"#),
        ("resources/list", "{}", r#""result":{"resources":[]}}"#),
        ("resources/templates/list", "{}", r#""result":{"resourceTemplates":[]}}"#),
        ("prompts/list", "7", r#""result":{"prompts":[]}}"#),
        (
            "completion/complete",
            r#"{"ref":{"a":1},"argument":{}}"#,
            r#""result":{"completion":{"hasMore":false,"values":[]}}}"#,
        ),
        ("completion/complete", "[]", r#""result":{"completion":{"hasMore":false,"values":[]}}}"#),
        ("logging/setLevel", r#"{"level":"debug"}"#, r#""result":{}}"#),
    ] {
        let message = format!(
            r#"{{"jsonrpc":"2.0","id":6,"method":"{}","params":{}}}"#,
            method, params
        );
        assert_eq!(answered(&message, &mut state), format!(r#"{{"id":6,"jsonrpc":"2.0",{}"#, expected));
    }
    assert_eq!(state.log_level, "debug");
    assert_eq!(state.init_state, InitState::Initialized);
}

#[test]
fn refusals_of_an_open_session() {
    let mut state = initialized();
    for (method, params, expected) in [
        (
            "tools/call",
            r#"{"name":"t","arguments":{"a":[true]}}"#,
            r#"{"code":-32012,"data":{"toolName":"t"},"message":"Tool not found"}"#,
        ),
        (
            "tools/call",
            r#"["t",1]"#,
            r#"{"code":-32012,"data":{"toolName":"t"},"message":"Tool not found"}"#,
        ),
        (
            "tools/call",
            r#"{"arguments":1}"#,
            r#"{"code":-32602,"data":{"details":"missing field `name`"},"message":"Invalid tools/call params"}"#,
        ),
        (
            "tools/call",
            r#"[]"#,
            r#"{"code":-32602,"data":{"details":"invalid length 0, expected struct ToolCallParams with 2 elements"},"message":"Invalid tools/call params"}"#,
        ),
        (
            "tools/call",
            r#"["a",1,2]"#,
            r#"{"code":-32602,"data":{"details":"invalid length 3, expected fewer elements in array"},"message":"Invalid tools/call params"}"#,
        ),
        (
            "resources/read",
            r#"{"uri":"file:///x"}"#,
            r#"{"code":-32010,"data":{"uri":"file:///x"},"message":"Resource not found"}"#,
        ),
        (
            "resources/read",
            r#"["a","b"]"#,
            r#"{"code":-32602,"data":{"details":"invalid length 2, expected fewer elements in array"},"message":"Invalid resources/read params"}"#,
        ),
        (
            "resources/read",
            r#"[]"#,
            r#"{"code":-32602,"data":{"details":"invalid length 0, expected struct ResourceReadParams with 1 element"},"message":"Invalid resources/read params"}"#,
        ),
        (
            "prompts/get",
            r#"{"name":"p"}"#,
            r#"{"code":-32011,"data":{"name":"p"},"message":"Prompt not found"}"#,
        ),
        (
            "prompts/get",
            r#"{"name":[1]}"#,
            r#"{"code":-32602,"data":{"details":"invalid type: sequence, expected a string"},"message":"Invalid prompts/get params"}"#,
        ),
        (
            "completion/complete",
            "true",
            r#"{"code":-32602,"data":{"details":"invalid type: boolean `true`, expected struct CompletionCompleteParams"},"message":"Invalid completion/complete params"}"#,
        ),
        (
            "completion/complete",
            "[1,2,3]",
            r#"{"code":-32602,"data":{"details":"invalid length 3, expected fewer elements in array"},"message":"Invalid completion/complete params"}"#,
        ),
        (
            "logging/setLevel",
            "{}",
            r#"{"code":-32602,"data":{"details":"missing field `level`"},"message":"Invalid logging/setLevel params"}"#,
        ),
        (
            "logging/setLevel",
            r#""debug""#,
            r#"{"code":-32602,"data":{"details":"invalid type: string \"debug\", expected struct LoggingSetLevelParams"},"message":"Invalid logging/setLevel params"}"#,
        ),
        (
            "sampling/createMessage",
            "{}",
            r#"{"code":-32601,"data":null,"message":"Method not found"}"#,
        ),
    ] {
        let message = format!(
            r#"{{"jsonrpc":"2.0","id":"q","method":"{}","params":{}}}"#,
            method, params
        );
        assert_eq!(
            answered(&message, &mut state),
            format!(r#"{{"error":{},"id":"q","jsonrpc":"2.0"}}"#, expected)
        );
    }
    assert_eq!(state.log_level, "");
    assert_eq!(RESOURCE_NOT_FOUND, -32010);
    assert_eq!(PROMPT_NOT_FOUND, -32011);
    assert_eq!(METHOD_NOT_FOUND, -32601);
}

#[test]
fn requests_that_cannot_be_read() {
    let mut state = initialized();
    for (message, why) in [
        (
            r#"{"jsonrpc":"2.0","id":1.5,"method":"ping"}"#,
            "data did not match any variant of untagged enum RequestId",
        ),
        (
            r#"{"jsonrpc":3,"id":true,"method":"ping"}"#,
            "data did not match any variant of untagged enum RequestId",
        ),
        (
            r#"{"jsonrpc":"2.0","id":9223372036854775808,"method":"ping"}"#,
            "data did not match any variant of untagged enum RequestId",
        ),
        (r#"{"id":1,"method":"ping"}"#, "missing field `jsonrpc`"),
        (
            r#"{"id":1,"jsonrpc":2,"method":null}"#,
            "invalid type: integer `2`, expected a string",
        ),
        (
            r#"{"id":1,"jsonrpc":-7,"method":"ping"}"#,
            "invalid type: integer `-7`, expected a string",
        ),
        (
            r#"{"id":1,"jsonrpc":2.50,"method":"ping"}"#,
            "invalid type: floating point `2.5`, expected a string",
        ),
        (
            r#"{"id":1,"jsonrpc":18446744073709551615,"method":"ping"}"#,
            "invalid type: integer `18446744073709551615`, expected a string",
        ),
        (
            r#"{"id":1,"method":null}"#,
            "invalid type: null, expected a string",
        ),
        (
            r#"{"id":1,"jsonrpc":"2.0","method":{}}"#,
            "invalid type: map, expected a string",
        ),
    ] {
        let response = dispatch_message(json(message), &mut state).expect("response");
        assert_eq!(integer(at(&response, &["error", "code"])), INVALID_REQUEST);
        assert_eq!(string(at(&response, &["error", "message"])), "Invalid Request");
        assert_eq!(string(at(&response, &["error", "data", "details"])), why);
        assert!(matches!(at(&response, &["id"]), Json::Null));
    }
}

#[test]
fn messages_without_a_method() {
    let mut state = initialized();
    for message in [
        "1",
        "null",
        r#""ping""#,
        r#"{"jsonrpc":"2.0","id":1}"#,
        "{}",
    ] {
        assert_eq!(
            answered(message, &mut state),
            r#"{"error":{"code":-32600,"data":null,"message":"Invalid Request"},"id":null,"jsonrpc":"2.0"}"#
        );
    }
}

#[test]
fn ids_come_back() {
    let mut state = SessionState::default();
    for id in ["null", "0", "-1", "9223372036854775807", "-9223372036854775808", r#""a\n\"b""#] {
        let message = format!(r#"{{"jsonrpc":"2.0","id":{},"method":"ping"}}"#, id);
        assert_eq!(
            answered(&message, &mut state),
            format!(r#"{{"id":{},"jsonrpc":"2.0","result":{{}}}}"#, id)
        );
    }
}

#[test]
fn another_version_of_json_rpc() {
    let mut state = SessionState::default();
    let request = JsonRpcRequest {
        jsonrpc: "1.0".to_string(),
        id: RequestId::Integer(8),
        method: "initialize".to_string(),
        params: Json::Null,
    };
    assert_eq!(
        render_json(handle_request(request, &mut state)),
        r#"{"error":{"code":-32600,"data":{"expected":"2.0"},"message":"Invalid jsonrpc version"},"id":8,"jsonrpc":"2.0"}"#
    );
    assert_eq!(state.init_state, InitState::Uninitialized);
}

#[test]
fn batch_runs_in_order() {
    let mut state = SessionState::default();
    let batch = r#"[
        {"jsonrpc":"2.0","id":1,"method":"tools/list"},
        {"jsonrpc":"2.0","id":2,"method":"initialize","params":["2025-11-25"]},
        {"jsonrpc":"2.0","method":"notifications/initialized"},
        [],
        {"jsonrpc":"2.0","id":3,"method":"tools/list"}
    ]"#;
    let Some(Json::Array(responses)) = dispatch_message(json(batch), &mut state) else {
        panic!("not an array");
    };
    assert_eq!(responses.len(), 4);
    assert_eq!(integer(at(&responses[0], &["error", "code"])), SERVER_NOT_READY);
    assert_eq!(string(at(&responses[1], &["result", "serverInfo", "name"])), "oxide-mcp");
    assert_eq!(integer(at(&responses[2], &["error", "code"])), INVALID_REQUEST);
    assert_eq!(integer(at(&responses[3], &["id"])), 3);
    assert!(matches!(at(&responses[3], &["result", "tools"]), Json::Array(_)));
    assert_eq!(state.init_state, InitState::Initialized);
}

#[test]
fn batch_of_notifications_is_silent() {
    let mut state = SessionState::default();
    let batch = r#"[{"jsonrpc":"2.0","method":"a"},{"method":7}]"#;
    assert!(dispatch_message(json(batch), &mut state).is_none());
}

#[test]
fn single_message_is_no_batch() {
    let mut state = SessionState::default();
    let response = dispatch_single(json("[]"), &mut state).expect("response");
    assert_eq!(integer(at(&response, &["error", "code"])), INVALID_REQUEST);
    let other = r#"{"jsonrpc":"2.0","id":1,"method":"ping","extra":[1]}"#;
    let response = dispatch_single(json(other), &mut state).expect("response");
    assert_eq!(render_json(response), r#"{"id":1,"jsonrpc":"2.0","result":{}}"#);
}

#[test]
fn responses_have_their_shape() {
    assert_eq!(
        render_json(success_response(RequestId::Null, Json::Bool(true))),
        r#"{"id":null,"jsonrpc":"2.0","result":true}"#
    );
    assert_eq!(
        render_json(error_response(RequestId::Integer(1), -5, "m", Some(Json::Unsigned(2)))),
        r#"{"error":{"code":-5,"data":2,"message":"m"},"id":1,"jsonrpc":"2.0"}"#
    );
}

#[test]
fn batch_can_be_sent_in_two() {
    let level = r#"{"jsonrpc":"2.0","id":1,"method":"logging/setLevel","params":["info"]}"#;
    let again = r#"{"jsonrpc":"2.0","id":2,"method":"initialize"}"#;
    let other = r#"{"jsonrpc":"2.0","id":3,"method":"logging/setLevel","params":["error"]}"#;
    let mut whole = initialized();
    let mut parts = initialized();
    let sent = answered(&format!("[{},{},{}]", level, again, other), &mut whole);
    let first = answered(&format!("[{},{}]", level, again), &mut parts);
    let second = answered(&format!("[{}]", other), &mut parts);
    assert_eq!(sent, format!("{},{}", &first[..first.len() - 1], &second[1..]));
    assert_eq!(whole.log_level, "error");
    assert_eq!(parts.log_level, "error");
}

#[test]
fn nothing_is_learned_too_early() {
    let mut state = SessionState::default();
    for message in [
        r#"{"jsonrpc":"2.0","id":1,"method":"logging/setLevel","params":{"level":"info"}}"#,
        r#"[{"jsonrpc":"2.0","id":1,"method":"initialize","params":{"protocolVersion":"x","clientInfo":["n","v"]}}]"#,
        r#"{"jsonrpc":"2.0","method":"logging/setLevel","params":{"level":"info"}}"#,
    ] {
        dispatch_message(json(message), &mut state);
        assert_eq!(state.init_state, InitState::Uninitialized);
        assert!(state.client_info.is_none());
        assert!(matches!(state.client_capabilities, Json::Null));
        assert_eq!(state.log_level, "");
    }
}
