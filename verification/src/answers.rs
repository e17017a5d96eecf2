//! What each message gets, told from the members of the message itself: from what
//! it carries, to the response with every text and number in it, and to what the
//! session is afterwards. Between them the laws leave no message out.
use vstd::prelude::*;

use crate::decode::{
    completion_params, initialize_params, logging_set_level_params, prompt_get_params,
    request_id_of, request_of, resource_read_params, tool_call_params, InfoView,
};
use crate::json::{Json, JsonView};
use crate::laws::reads_as;
use crate::message::{
    failure, optional_view, success, NotificationView, RequestIdView, RequestView, JSONRPC_VERSION,
};
use crate::protocol::{
    after_batch, after_initialize, after_logging_set_level, after_message, after_notification,
    after_request, after_single, answer, completion_complete_answer, initialize_answer,
    logging_set_level_answer, outcome, prompts_get_answer, refusal, replies, reply,
    resources_read_answer, tools_call_answer,
};
use crate::session::{InitState, SessionView};

verus! {

/// A response with a result.
pub open spec fn result_with(id: JsonView, result: JsonView) -> JsonView {
    JsonView::Object(
        map!["jsonrpc"@ => JsonView::String("2.0"@), "id"@ => id, "result"@ => result],
    )
}

/// A response with an error.
pub open spec fn error_with(
    id: JsonView,
    code: int,
    message: Seq<char>,
    data: JsonView,
) -> JsonView {
    JsonView::Object(
        map![
            "jsonrpc"@ => JsonView::String("2.0"@),
            "id"@ => id,
            "error"@ => JsonView::Object(
                map![
                    "code"@ => JsonView::Integer(code),
                    "message"@ => JsonView::String(message),
                    "data"@ => data,
                ],
            ),
        ],
    )
}

/// An object with one text.
pub open spec fn holding(name: Seq<char>, text: Seq<char>) -> JsonView {
    JsonView::Object(map![name => JsonView::String(text)])
}

/// An object with one list, which is empty.
pub open spec fn holding_no(name: Seq<char>) -> JsonView {
    JsonView::Object(map![name => JsonView::Array(Seq::empty())])
}

/// The value under a name, in an object that has it.
pub open spec fn under(json: JsonView, name: Seq<char>) -> Option<JsonView> {
    match json {
        JsonView::Object(members) => if members.contains_key(name) {
            Some(members[name])
        } else {
            None
        },
        _ => None,
    }
}

/// Whether a request can be called by a value: a whole number that fits an `i64`,
/// a text, or `null`.
pub open spec fn is_id(id: JsonView) -> bool {
    match id {
        JsonView::Integer(n) => -0x8000_0000_0000_0000 <= n <= 0x7fff_ffff_ffff_ffff,
        JsonView::String(_) => true,
        JsonView::Null => true,
        _ => false,
    }
}

/// Whether a message calls a method, under an id, in some version of JSON-RPC.
pub open spec fn calls_in(
    message: JsonView,
    version: Seq<char>,
    id: JsonView,
    method: Seq<char>,
) -> bool {
    &&& under(message, "jsonrpc"@) == Some(JsonView::String(version))
    &&& under(message, "id"@) == Some(id)
    &&& is_id(id)
    &&& under(message, "method"@) == Some(JsonView::String(method))
}

/// Whether a message calls a method, under an id.
pub open spec fn calls(message: JsonView, id: JsonView, method: Seq<char>) -> bool {
    calls_in(message, "2.0"@, id, method)
}

/// The parameters of a message, or `null` where it has none.
pub open spec fn params_in(message: JsonView) -> JsonView {
    match under(message, "params"@) {
        Some(params) => params,
        None => JsonView::Null,
    }
}

/// Whether parameters give a text: under a name in an object, or first in an array
/// of at most `room` elements.
pub open spec fn gives_text(
    params: JsonView,
    name: Seq<char>,
    room: int,
    text: Seq<char>,
) -> bool {
    match params {
        JsonView::Object(_) => under(params, name) == Some(JsonView::String(text)),
        JsonView::Array(items) => 1 <= items.len() <= room && items[0] == JsonView::String(text),
        _ => false,
    }
}

/// Whether parameters give no text.
pub open spec fn gives_no_text(params: JsonView, name: Seq<char>, room: int) -> bool {
    forall|text: Seq<char>| !#[trigger] gives_text(params, name, room, text)
}

/// What the parameters of `initialize` say of the client, or `null`.
pub open spec fn info_given(params: JsonView) -> JsonView {
    match params {
        JsonView::Object(members) => if members.contains_key("clientInfo"@) {
            members["clientInfo"@]
        } else {
            JsonView::Null
        },
        JsonView::Array(items) => if items.len() > 2 {
            items[2]
        } else {
            JsonView::Null
        },
        _ => JsonView::Null,
    }
}

/// The capabilities in the parameters of `initialize`, or `null`.
pub open spec fn capabilities_given(params: JsonView) -> JsonView {
    match params {
        JsonView::Object(members) => if members.contains_key("capabilities"@) {
            members["capabilities"@]
        } else {
            JsonView::Null
        },
        JsonView::Array(items) => if items.len() > 1 {
            items[1]
        } else {
            JsonView::Null
        },
        _ => JsonView::Null,
    }
}

/// Whether a value names an implementation: two texts, under `name` and `version`
/// or in this order.
pub open spec fn names_implementation(
    json: JsonView,
    name: Seq<char>,
    version: Seq<char>,
) -> bool {
    match json {
        JsonView::Object(_) => under(json, "name"@) == Some(JsonView::String(name)) && under(
            json,
            "version"@,
        ) == Some(JsonView::String(version)),
        JsonView::Array(items) => items == seq![JsonView::String(name), JsonView::String(version)],
        _ => false,
    }
}

/// Whether a value says of a client what a session can keep: nothing, or which
/// implementation it is.
pub open spec fn tells_client(json: JsonView, client: Option<InfoView>) -> bool {
    match client {
        None => json == JsonView::Null,
        Some(info) => names_implementation(json, info.name, info.version),
    }
}

/// Whether parameters of `initialize` ask for a version of the protocol, and say
/// of the client what can be kept.
pub open spec fn asks_for_version(
    params: JsonView,
    version: Seq<char>,
    client: Option<InfoView>,
) -> bool {
    &&& gives_text(params, "protocolVersion"@, 3, version)
    &&& tells_client(info_given(params), client)
}

/// What the server says of itself when a session begins.
pub open spec fn self_description() -> JsonView {
    let flag = JsonView::Bool(false);
    let none = JsonView::Object(Map::<Seq<char>, JsonView>::empty());
    JsonView::Object(
        map![
            "protocolVersion"@ => JsonView::String("2025-11-25"@),
            "capabilities"@ => JsonView::Object(
                map![
                    "completion"@ => none,
                    "logging"@ => none,
                    "prompts"@ => JsonView::Object(map!["listChanged"@ => flag]),
                    "resources"@ => JsonView::Object(
                        map!["listChanged"@ => flag, "subscribe"@ => flag],
                    ),
                    "tools"@ => JsonView::Object(map!["listChanged"@ => flag]),
                ],
            ),
            "serverInfo"@ => JsonView::Object(
                map![
                    "name"@ => JsonView::String("oxide-mcp"@),
                    "version"@ => JsonView::String("0.1.0"@),
                ],
            ),
            "instructions"@ => JsonView::String(
                "MCP server implementation with full protocol method coverage and strict lifecycle handling."@,
            ),
        ],
    )
}

/// Whether a message is refused for its parameters, with a reason, and changes
/// nothing.
pub open spec fn refused_for_params(
    message: JsonView,
    id: JsonView,
    text: Seq<char>,
    why: Seq<char>,
    session: SessionView,
) -> bool {
    &&& outcome(message, session) == Some(error_with(id, -32602, text, holding("details"@, why)))
    &&& after_message(message, session) == session
}

/// The names of the methods differ from one another.
pub(crate) proof fn method_names_differ()
    ensures
        "initialize"@ != "ping"@,
        "initialize"@ != "tools/list"@,
        "initialize"@ != "tools/call"@,
        "initialize"@ != "resources/list"@,
        "initialize"@ != "resources/templates/list"@,
        "initialize"@ != "resources/read"@,
        "initialize"@ != "prompts/list"@,
        "initialize"@ != "prompts/get"@,
        "initialize"@ != "completion/complete"@,
        "initialize"@ != "logging/setLevel"@,
        "ping"@ != "tools/list"@,
        "ping"@ != "tools/call"@,
        "ping"@ != "resources/list"@,
        "ping"@ != "resources/templates/list"@,
        "ping"@ != "resources/read"@,
        "ping"@ != "prompts/list"@,
        "ping"@ != "prompts/get"@,
        "ping"@ != "completion/complete"@,
        "ping"@ != "logging/setLevel"@,
        "tools/list"@ != "tools/call"@,
        "tools/list"@ != "resources/list"@,
        "tools/list"@ != "resources/templates/list"@,
        "tools/list"@ != "resources/read"@,
        "tools/list"@ != "prompts/list"@,
        "tools/list"@ != "prompts/get"@,
        "tools/list"@ != "completion/complete"@,
        "tools/list"@ != "logging/setLevel"@,
        "tools/call"@ != "resources/list"@,
        "tools/call"@ != "resources/templates/list"@,
        "tools/call"@ != "resources/read"@,
        "tools/call"@ != "prompts/list"@,
        "tools/call"@ != "prompts/get"@,
        "tools/call"@ != "completion/complete"@,
        "tools/call"@ != "logging/setLevel"@,
        "resources/list"@ != "resources/templates/list"@,
        "resources/list"@ != "resources/read"@,
        "resources/list"@ != "prompts/list"@,
        "resources/list"@ != "prompts/get"@,
        "resources/list"@ != "completion/complete"@,
        "resources/list"@ != "logging/setLevel"@,
        "resources/templates/list"@ != "resources/read"@,
        "resources/templates/list"@ != "prompts/list"@,
        "resources/templates/list"@ != "prompts/get"@,
        "resources/templates/list"@ != "completion/complete"@,
        "resources/templates/list"@ != "logging/setLevel"@,
        "resources/read"@ != "prompts/list"@,
        "resources/read"@ != "prompts/get"@,
        "resources/read"@ != "completion/complete"@,
        "resources/read"@ != "logging/setLevel"@,
        "prompts/list"@ != "prompts/get"@,
        "prompts/list"@ != "completion/complete"@,
        "prompts/list"@ != "logging/setLevel"@,
        "prompts/get"@ != "completion/complete"@,
        "prompts/get"@ != "logging/setLevel"@,
        "completion/complete"@ != "logging/setLevel"@,
{
    reveal_strlit("initialize");
    reveal_strlit("ping");
    reveal_strlit("tools/list");
    reveal_strlit("tools/call");
    reveal_strlit("resources/list");
    reveal_strlit("resources/templates/list");
    reveal_strlit("resources/read");
    reveal_strlit("prompts/list");
    reveal_strlit("prompts/get");
    reveal_strlit("completion/complete");
    reveal_strlit("logging/setLevel");
    assert("initialize"@.len() == 10);
    assert("ping"@.len() == 4);
    assert("tools/list"@.len() == 10);
    assert("tools/call"@.len() == 10);
    assert("resources/list"@.len() == 14);
    assert("resources/templates/list"@.len() == 24);
    assert("resources/read"@.len() == 14);
    assert("prompts/list"@.len() == 12);
    assert("prompts/get"@.len() == 11);
    assert("completion/complete"@.len() == 19);
    assert("logging/setLevel"@.len() == 16);
    assert("initialize"@[0] == 'i' && "tools/list"@[0] == 't');
    assert("initialize"@[0] == 'i' && "tools/call"@[0] == 't');
    assert("tools/list"@[6] == 'l' && "tools/call"@[6] == 'c');
    assert("resources/list"@[10] == 'l' && "resources/read"@[10] == 'r');
}

proof fn call_is_read(message: JsonView, version: Seq<char>, id: JsonView, method: Seq<char>)
    requires
        calls_in(message, version, id, method),
    ensures
        request_id_of(id) is Some,
        request_id_of(id)->0.json() == id,
        reads_as(
            message,
            RequestView {
                jsonrpc: version,
                id: request_id_of(id)->0,
                method,
                params: params_in(message),
            },
        ),
{
}

proof fn responses_are_alike(id: RequestIdView)
    ensures
        forall|result: JsonView| #[trigger] success(id, result) == result_with(id.json(), result),
        forall|code: int, message: Seq<char>, data: Option<JsonView>| #[trigger]
            failure(id, code, message, data) == error_with(
                id.json(),
                code,
                message,
                match data {
                    Some(value) => value,
                    None => JsonView::Null,
                },
            ),
{
}

proof fn call_is_answered(
    message: JsonView,
    version: Seq<char>,
    id: JsonView,
    method: Seq<char>,
    session: SessionView,
)
    requires
        calls_in(message, version, id, method),
    ensures
        ({
            let request = RequestView {
                jsonrpc: version,
                id: request_id_of(id)->0,
                method,
                params: params_in(message),
            };
            &&& request.id.json() == id
            &&& outcome(message, session) == Some(answer(request, session))
            &&& after_message(message, session) == after_request(request, session)
        }),
        "2.0"@ == JSONRPC_VERSION@,
{
    call_is_read(message, version, id, method);
}

/// A response with a result carries the version of JSON-RPC, the id and the
/// result; one with an error carries the version, the id, and the code, message
/// and data of the error, `null` where there are none.
pub proof fn responses_carry_what_they_are_given(
    id: RequestIdView,
    result: JsonView,
    code: int,
    message: Seq<char>,
    data: Option<JsonView>,
)
    ensures
        success(id, result) == result_with(id.json(), result),
        data is Some ==> failure(id, code, message, data) == error_with(
            id.json(),
            code,
            message,
            data->0,
        ),
        data is None ==> failure(id, code, message, data) == error_with(
            id.json(),
            code,
            message,
            JsonView::Null,
        ),
        match id {
            RequestIdView::Integer(n) => id.json() == JsonView::Integer(n),
            RequestIdView::String(s) => id.json() == JsonView::String(s),
            RequestIdView::Null => id.json() == JsonView::Null,
        },
{
    responses_are_alike(id);
}

/// A session begins if and only if it has not begun, and the parameters ask for
/// the version `2025-11-25` and can be read. The server then describes itself, and
/// keeps what the client said.
pub proof fn session_begins_on_the_supported_version(
    message: JsonView,
    id: JsonView,
    session: SessionView,
)
    requires
        calls(message, id, "initialize"@),
    ensures
        ({
            let begun = session.init_state == InitState::Uninitialized && exists|
                client: Option<InfoView>,
            | #[trigger] asks_for_version(params_in(message), "2025-11-25"@, client);
            &&& begun <==> (under(outcome(message, session)->0, "result"@) is Some)
            &&& begun <==> after_message(message, session).init_state != session.init_state
        }),
        forall|client: Option<InfoView>| #[trigger]
            asks_for_version(params_in(message), "2025-11-25"@, client) && session.init_state
                == InitState::Uninitialized ==> {
                &&& outcome(message, session) == Some(result_with(id, self_description()))
                &&& after_message(message, session) == (SessionView {
                    init_state: InitState::Initializing,
                    client_info: client,
                    client_capabilities: capabilities_given(params_in(message)),
                    log_level: session.log_level,
                })
            },
{
    call_is_answered(message, "2.0"@, id, "initialize"@, session);
    responses_are_alike(request_id_of(id)->0);
    initialize_params_are_as_given(params_in(message));
    method_names_differ();
    result_and_error_differ();
    let params = params_in(message);
    if initialize_params(params) is Ok {
        let wanted = initialize_params(params)->Ok_0;
        assert(asks_for_version(params, wanted.protocol_version, wanted.client_info));
    }
}

proof fn result_and_error_differ()
    ensures
        "result"@ != "jsonrpc"@,
        "result"@ != "id"@,
        "result"@ != "error"@,
{
    reveal_strlit("result");
    reveal_strlit("jsonrpc");
    reveal_strlit("id");
    reveal_strlit("error");
    assert("result"@.len() == 6 && "jsonrpc"@.len() == 7 && "id"@.len() == 2 && "error"@.len()
        == 5);
}

proof fn initialize_params_are_as_given(params: JsonView)
    ensures
        forall|version: Seq<char>, client: Option<InfoView>| #[trigger]
            asks_for_version(params, version, client) <==> (initialize_params(params) is Ok
                && initialize_params(params)->Ok_0.protocol_version == version && initialize_params(
                params,
            )->Ok_0.client_info == client),
        initialize_params(params) is Ok ==> initialize_params(params)->Ok_0.capabilities
            == capabilities_given(params),
{
    assert forall|version: Seq<char>, client: Option<InfoView>| #[trigger]
        asks_for_version(params, version, client) implies initialize_params(params) is Ok
        && initialize_params(params)->Ok_0.protocol_version == version && initialize_params(
        params,
    )->Ok_0.client_info == client by {
        if let Some(info) = client {
            assert(InfoView { name: info.name, version: info.version } == info);
        }
    }
    if initialize_params(params) is Ok {
        let wanted = initialize_params(params)->Ok_0;
        let json = info_given(params);
        if let Some(info) = wanted.client_info {
            if let JsonView::Array(items) = json {
                assert(items =~= seq![JsonView::String(info.name), JsonView::String(info.version)]);
            }
            assert(names_implementation(json, info.name, info.version));
        }
        assert(asks_for_version(params, wanted.protocol_version, wanted.client_info));
    }
}

/// Any other version that a client asks for is refused, with the version that is
/// supported, and the session stays as it was.
pub proof fn other_versions_are_refused(
    message: JsonView,
    id: JsonView,
    version: Seq<char>,
    client: Option<InfoView>,
    session: SessionView,
)
    requires
        calls(message, id, "initialize"@),
        session.init_state == InitState::Uninitialized,
        asks_for_version(params_in(message), version, client),
        version != "2025-11-25"@,
    ensures
        outcome(message, session) == Some(
            error_with(
                id,
                -32602,
                "Unsupported protocol version"@,
                JsonView::Object(
                    map!["supported"@ => JsonView::Array(seq![JsonView::String("2025-11-25"@)])],
                ),
            ),
        ),
        after_message(message, session) == session,
{
    call_is_answered(message, "2.0"@, id, "initialize"@, session);
    responses_are_alike(request_id_of(id)->0);
    initialize_params_are_as_given(params_in(message));
    method_names_differ();
}

/// Parameters of `initialize` that ask for no version, or cannot be read, are
/// refused with the reason, and the session stays as it was.
pub proof fn unreadable_beginnings_are_refused(
    message: JsonView,
    id: JsonView,
    session: SessionView,
)
    requires
        calls(message, id, "initialize"@),
        session.init_state == InitState::Uninitialized,
        forall|version: Seq<char>, client: Option<InfoView>|
            !#[trigger] asks_for_version(params_in(message), version, client),
    ensures
        initialize_params(params_in(message)) is Err,
        refused_for_params(
            message,
            id,
            "Invalid initialize params"@,
            initialize_params(params_in(message))->Err_0,
            session,
        ),
{
    call_is_answered(message, "2.0"@, id, "initialize"@, session);
    responses_are_alike(request_id_of(id)->0);
    initialize_params_are_as_given(params_in(message));
    method_names_differ();
    if initialize_params(params_in(message)) is Ok {
        let wanted = initialize_params(params_in(message))->Ok_0;
        assert(asks_for_version(params_in(message), wanted.protocol_version, wanted.client_info));
    }
}

/// Once a session has begun, `initialize` is refused whatever its parameters are,
/// and the session stays as it was.
pub proof fn second_beginning_is_refused(message: JsonView, id: JsonView, session: SessionView)
    requires
        calls(message, id, "initialize"@),
        session.init_state != InitState::Uninitialized,
    ensures
        outcome(message, session) == Some(
            error_with(
                id,
                -32600,
                "Initialize can only be called once per session"@,
                JsonView::Null,
            ),
        ),
        after_message(message, session) == session,
{
    call_is_answered(message, "2.0"@, id, "initialize"@, session);
    responses_are_alike(request_id_of(id)->0);
    method_names_differ();
}

/// `ping` gets an empty result at every stage, whatever its parameters are.
pub proof fn every_ping_gets_an_empty_result(message: JsonView, id: JsonView, session: SessionView)
    requires
        calls(message, id, "ping"@),
    ensures
        outcome(message, session) == Some(result_with(id, JsonView::Object(Map::empty()))),
        after_message(message, session) == session,
{
    call_is_answered(message, "2.0"@, id, "ping"@, session);
    responses_are_alike(request_id_of(id)->0);
    method_names_differ();
}

/// In an open session the lists of tools, resources, resource templates and
/// prompts are empty, whatever the parameters are.
pub proof fn lists_are_empty(
    message: JsonView,
    id: JsonView,
    method: Seq<char>,
    session: SessionView,
)
    requires
        calls(message, id, method),
        session.init_state == InitState::Initialized,
    ensures
        method == "tools/list"@ ==> outcome(message, session) == Some(
            result_with(id, holding_no("tools"@)),
        ),
        method == "resources/list"@ ==> outcome(message, session) == Some(
            result_with(id, holding_no("resources"@)),
        ),
        method == "resources/templates/list"@ ==> outcome(message, session) == Some(
            result_with(id, holding_no("resourceTemplates"@)),
        ),
        method == "prompts/list"@ ==> outcome(message, session) == Some(
            result_with(id, holding_no("prompts"@)),
        ),
        method == "tools/list"@ || method == "resources/list"@ || method
            == "resources/templates/list"@ || method == "prompts/list"@ ==> after_message(
            message,
            session,
        ) == session,
{
    call_is_answered(message, "2.0"@, id, method, session);
    responses_are_alike(request_id_of(id)->0);
    method_names_differ();
}

/// In an open session, whichever tool is called is not found, and the response
/// names it. `arguments` may be left out, and whatever they are does not matter.
/// Parameters that name no tool are refused.
pub proof fn no_tool_is_found(message: JsonView, id: JsonView, session: SessionView)
    requires
        calls(message, id, "tools/call"@),
        session.init_state == InitState::Initialized,
    ensures
        forall|name: Seq<char>| #[trigger]
            gives_text(params_in(message), "name"@, 2, name) ==> outcome(message, session) == Some(
                error_with(id, -32012, "Tool not found"@, holding("toolName"@, name)),
            ),
        gives_no_text(params_in(message), "name"@, 2) ==> tool_call_params(params_in(message)) is Err
            && refused_for_params(
            message,
            id,
            "Invalid tools/call params"@,
            tool_call_params(params_in(message))->Err_0,
            session,
        ),
        after_message(message, session) == session,
{
    call_is_answered(message, "2.0"@, id, "tools/call"@, session);
    responses_are_alike(request_id_of(id)->0);
    method_names_differ();
    let params = params_in(message);
    if tool_call_params(params) is Ok {
        assert(gives_text(params, "name"@, 2, tool_call_params(params)->Ok_0.0));
    }
}

/// In an open session, whichever prompt is asked for is not found, and the
/// response names it. `arguments` may be left out, and whatever they are does not
/// matter. Parameters that name no prompt are refused.
pub proof fn no_prompt_is_found(message: JsonView, id: JsonView, session: SessionView)
    requires
        calls(message, id, "prompts/get"@),
        session.init_state == InitState::Initialized,
    ensures
        forall|name: Seq<char>| #[trigger]
            gives_text(params_in(message), "name"@, 2, name) ==> outcome(message, session) == Some(
                error_with(id, -32011, "Prompt not found"@, holding("name"@, name)),
            ),
        gives_no_text(params_in(message), "name"@, 2) ==> prompt_get_params(params_in(message)) is Err
            && refused_for_params(
            message,
            id,
            "Invalid prompts/get params"@,
            prompt_get_params(params_in(message))->Err_0,
            session,
        ),
        after_message(message, session) == session,
{
    call_is_answered(message, "2.0"@, id, "prompts/get"@, session);
    responses_are_alike(request_id_of(id)->0);
    method_names_differ();
    let params = params_in(message);
    if prompt_get_params(params) is Ok {
        assert(gives_text(params, "name"@, 2, prompt_get_params(params)->Ok_0.0));
    }
}

/// In an open session, whichever resource is to be read is not found, and the
/// response names it. Parameters that name no resource are refused.
pub proof fn no_resource_is_found(message: JsonView, id: JsonView, session: SessionView)
    requires
        calls(message, id, "resources/read"@),
        session.init_state == InitState::Initialized,
    ensures
        forall|uri: Seq<char>| #[trigger]
            gives_text(params_in(message), "uri"@, 1, uri) ==> outcome(message, session) == Some(
                error_with(id, -32010, "Resource not found"@, holding("uri"@, uri)),
            ),
        gives_no_text(params_in(message), "uri"@, 1) ==> resource_read_params(params_in(message)) is Err
            && refused_for_params(
            message,
            id,
            "Invalid resources/read params"@,
            resource_read_params(params_in(message))->Err_0,
            session,
        ),
        after_message(message, session) == session,
{
    call_is_answered(message, "2.0"@, id, "resources/read"@, session);
    responses_are_alike(request_id_of(id)->0);
    method_names_differ();
    let params = params_in(message);
    if resource_read_params(params) is Ok {
        assert(gives_text(params, "uri"@, 1, resource_read_params(params)->Ok_0));
    }
}

/// In an open session, any text is taken as the level of logging: the request gets
/// an empty result, the level is that text, and nothing else changes. Parameters
/// that give no text are refused and change nothing.
pub proof fn any_level_is_taken(message: JsonView, id: JsonView, session: SessionView)
    requires
        calls(message, id, "logging/setLevel"@),
        session.init_state == InitState::Initialized,
    ensures
        forall|level: Seq<char>| #[trigger]
            gives_text(params_in(message), "level"@, 1, level) ==> {
                &&& outcome(message, session) == Some(
                    result_with(id, JsonView::Object(Map::empty())),
                )
                &&& after_message(message, session) == (SessionView {
                    init_state: InitState::Initialized,
                    client_info: session.client_info,
                    client_capabilities: session.client_capabilities,
                    log_level: level,
                })
            },
        gives_no_text(params_in(message), "level"@, 1) ==> logging_set_level_params(
            params_in(message),
        ) is Err && refused_for_params(
            message,
            id,
            "Invalid logging/setLevel params"@,
            logging_set_level_params(params_in(message))->Err_0,
            session,
        ),
{
    call_is_answered(message, "2.0"@, id, "logging/setLevel"@, session);
    responses_are_alike(request_id_of(id)->0);
    method_names_differ();
    let params = params_in(message);
    if logging_set_level_params(params) is Ok {
        assert(gives_text(params, "level"@, 1, logging_set_level_params(params)->Ok_0));
    }
}

/// In an open session, nothing is proposed as a completion, whatever is to be
/// completed and whatever the argument is: the list of values is empty, and there
/// are no more. Parameters that are neither an object nor an array of at most two
/// elements are refused.
pub proof fn nothing_is_proposed(message: JsonView, id: JsonView, session: SessionView)
    requires
        calls(message, id, "completion/complete"@),
        session.init_state == InitState::Initialized,
    ensures
        ({
            let params = params_in(message);
            if params is Object || (params is Array && params->Array_0.len() <= 2) {
                outcome(message, session) == Some(
                    result_with(
                        id,
                        JsonView::Object(
                            map![
                                "completion"@ => JsonView::Object(
                                    map![
                                        "values"@ => JsonView::Array(Seq::empty()),
                                        "hasMore"@ => JsonView::Bool(false),
                                    ],
                                ),
                            ],
                        ),
                    ),
                )
            } else {
                completion_params(params) is Err && refused_for_params(
                    message,
                    id,
                    "Invalid completion/complete params"@,
                    completion_params(params)->Err_0,
                    session,
                )
            }
        }),
        after_message(message, session) == session,
{
    call_is_answered(message, "2.0"@, id, "completion/complete"@, session);
    responses_are_alike(request_id_of(id)->0);
    method_names_differ();
}

/// In an open session, every method of another name is not found, whatever its
/// parameters are.
pub proof fn other_methods_are_not_found(
    message: JsonView,
    id: JsonView,
    method: Seq<char>,
    session: SessionView,
)
    requires
        calls(message, id, method),
        session.init_state == InitState::Initialized,
        method != "initialize"@,
        method != "ping"@,
        method != "tools/list"@,
        method != "tools/call"@,
        method != "resources/list"@,
        method != "resources/templates/list"@,
        method != "resources/read"@,
        method != "prompts/list"@,
        method != "prompts/get"@,
        method != "completion/complete"@,
        method != "logging/setLevel"@,
    ensures
        outcome(message, session) == Some(
            error_with(id, -32601, "Method not found"@, JsonView::Null),
        ),
        after_message(message, session) == session,
{
    call_is_answered(message, "2.0"@, id, method, session);
    responses_are_alike(request_id_of(id)->0);
}

/// Before a session is open, every method but `initialize` and `ping` is refused,
/// known or not, and the message says what is waited for.
pub proof fn early_calls_are_refused(
    message: JsonView,
    id: JsonView,
    method: Seq<char>,
    session: SessionView,
)
    requires
        calls(message, id, method),
        session.init_state != InitState::Initialized,
        method != "initialize"@,
        method != "ping"@,
    ensures
        session.init_state == InitState::Uninitialized ==> outcome(message, session) == Some(
            error_with(id, -32002, "Server not initialized"@, JsonView::Null),
        ),
        session.init_state == InitState::Initializing ==> outcome(message, session) == Some(
            error_with(id, -32002, "Waiting for notifications/initialized"@, JsonView::Null),
        ),
        after_message(message, session) == session,
{
    call_is_answered(message, "2.0"@, id, method, session);
    responses_are_alike(request_id_of(id)->0);
}

/// A call in another version of JSON-RPC is refused at every stage, whichever
/// method it calls, and changes nothing.
pub proof fn other_json_rpc_versions_are_refused(
    message: JsonView,
    version: Seq<char>,
    id: JsonView,
    method: Seq<char>,
    session: SessionView,
)
    requires
        calls_in(message, version, id, method),
        version != "2.0"@,
    ensures
        outcome(message, session) == Some(
            error_with(id, -32600, "Invalid jsonrpc version"@, holding("expected"@, "2.0"@)),
        ),
        after_message(message, session) == session,
{
    call_is_answered(message, version, id, method, session);
    responses_are_alike(request_id_of(id)->0);
}

/// A message with a method and an id that is no call for want of a proper id,
/// version or method is refused without an id, with the reason, and changes
/// nothing.
pub proof fn malformed_calls_are_refused(message: JsonView, session: SessionView)
    requires
        under(message, "method"@) is Some,
        under(message, "id"@) is Some,
        forall|version: Seq<char>, id: JsonView, method: Seq<char>|
            !#[trigger] calls_in(message, version, id, method),
    ensures
        request_of(message->Object_0) is Err,
        outcome(message, session) == Some(
            error_with(
                JsonView::Null,
                -32600,
                "Invalid Request"@,
                holding("details"@, request_of(message->Object_0)->Err_0),
            ),
        ),
        after_message(message, session) == session,
{
    responses_are_alike(RequestIdView::Null);
    if request_of(message->Object_0) is Ok {
        let request = request_of(message->Object_0)->Ok_0;
        assert(calls_in(message, request.jsonrpc, under(message, "id"@)->0, request.method));
    }
}

/// What has no method is refused without an id, and changes nothing: a value that
/// is no object, or an object without that member.
pub proof fn what_has_no_method_is_refused(message: JsonView, session: SessionView)
    requires
        message !is Array,
        under(message, "method"@) is None,
    ensures
        outcome(message, session) == Some(
            error_with(JsonView::Null, -32600, "Invalid Request"@, JsonView::Null),
        ),
        after_message(message, session) == session,
{
    responses_are_alike(RequestIdView::Null);
}

/// A message with a method and without an id gets no response. It opens a session
/// that has begun if it is the confirmation, in the right version of JSON-RPC, and
/// changes nothing otherwise.
pub proof fn only_the_confirmation_opens(message: JsonView, session: SessionView)
    requires
        under(message, "method"@) is Some,
        under(message, "id"@) is None,
    ensures
        outcome(message, session) is None,
        after_message(message, session) == (if session.init_state == InitState::Initializing
            && under(message, "jsonrpc"@) == Some(JsonView::String("2.0"@)) && under(
            message,
            "method"@,
        ) == Some(JsonView::String("notifications/initialized"@)) {
            SessionView {
                init_state: InitState::Initialized,
                client_info: session.client_info,
                client_capabilities: session.client_capabilities,
                log_level: session.log_level,
            }
        } else {
            session
        }),
{
}

/// Whether a message gets no response.
pub open spec fn is_silent(message: JsonView) -> bool {
    under(message, "method"@) is Some && under(message, "id"@) is None
}

/// How many messages get a response.
pub open spec fn answered_count(messages: Seq<JsonView>) -> nat
    decreases messages.len(),
{
    if messages.len() == 0 {
        0
    } else {
        answered_count(messages.drop_last()) + (if is_silent(messages.last()) {
            0nat
        } else {
            1nat
        })
    }
}

/// The response to a message inside a batch, in a session: the one that it gets
/// alone, or a refusal where it is a batch itself.
pub open spec fn response_within(message: JsonView, session: SessionView) -> JsonView {
    if message is Array {
        error_with(JsonView::Null, -32600, "Invalid Request"@, JsonView::Null)
    } else {
        outcome(message, session)->0
    }
}

proof fn batch_in_order(messages: Seq<JsonView>, session: SessionView)
    ensures
        replies(messages, session).len() == answered_count(messages),
        forall|i: int|
            #![trigger messages[i]]
            0 <= i < messages.len() && !is_silent(messages[i]) ==> answered_count(messages.take(i))
                < answered_count(messages) && replies(messages, session)[answered_count(
                messages.take(i),
            ) as int] == response_within(messages[i], after_batch(messages.take(i), session)),
    decreases messages.len(),
{
    responses_are_alike(RequestIdView::Null);
    if messages.len() > 0 {
        let rest = messages.drop_last();
        batch_in_order(rest, session);
        assert forall|i: int|
            #![trigger messages[i]]
            0 <= i < messages.len() && !is_silent(messages[i]) implies answered_count(
            messages.take(i),
        ) < answered_count(messages) && replies(messages, session)[answered_count(
            messages.take(i),
        ) as int] == response_within(messages[i], after_batch(messages.take(i), session)) by {
            if i < rest.len() {
                assert(rest[i] == messages[i]);
                assert(rest.take(i) =~= messages.take(i));
            } else {
                assert(messages.take(i) =~= rest);
            }
        }
    }
}

/// A batch gets one response for each message in it that is not silent, in the
/// order of the messages. Each is what the message gets alone in the session that
/// the messages before it left behind. Where every message is silent, nothing is
/// sent back.
pub proof fn batch_is_answered_in_order(messages: Seq<JsonView>, session: SessionView)
    requires
        messages.len() > 0,
    ensures
        ({
            let sent = outcome(JsonView::Array(messages), session);
            if answered_count(messages) == 0 {
                sent is None
            } else {
                &&& sent is Some && sent->0 is Array
                &&& sent->0->Array_0.len() == answered_count(messages)
                &&& forall|i: int|
                    #![trigger messages[i]]
                    0 <= i < messages.len() && !is_silent(messages[i]) ==> {
                        &&& answered_count(messages.take(i)) < answered_count(messages)
                        &&& sent->0->Array_0[answered_count(messages.take(i)) as int]
                            == response_within(
                            messages[i],
                            after_message(JsonView::Array(messages.take(i)), session),
                        )
                    }
            }
        }),
{
    batch_in_order(messages, session);
}

/// An empty batch is refused as a whole. A batch leaves the session as its messages
/// one after the other do; a batch inside it does nothing.
pub proof fn batch_goes_message_by_message(
    messages: Seq<JsonView>,
    message: JsonView,
    session: SessionView,
)
    ensures
        outcome(JsonView::Array(Seq::empty()), session) == Some(
            error_with(JsonView::Null, -32600, "Invalid Request"@, JsonView::Null),
        ),
        after_message(JsonView::Array(Seq::empty()), session) == session,
        ({
            let before = after_message(JsonView::Array(messages), session);
            after_message(JsonView::Array(messages.push(message)), session) == (if message is Array {
                before
            } else {
                after_message(message, before)
            })
        }),
{
    responses_are_alike(RequestIdView::Null);
    assert(messages.push(message).drop_last() =~= messages);
}

/// A message is answered alike whether or not it could have been a batch: a single
/// message gets what it gets on its own, and a batch in its place is refused.
pub proof fn single_messages_are_answered_alike(message: JsonView, session: SessionView)
    ensures
        message !is Array ==> reply(message, session) == outcome(message, session) && after_single(
            message,
            session,
        ) == after_message(message, session),
        message is Array ==> reply(message, session) == Some(
            error_with(JsonView::Null, -32600, "Invalid Request"@, JsonView::Null),
        ) && after_single(message, session) == session,
{
    responses_are_alike(RequestIdView::Null);
}

/// The message that carries a request.
pub open spec fn message_with(request: RequestView) -> JsonView {
    JsonView::Object(
        map![
            "jsonrpc"@ => JsonView::String(request.jsonrpc),
            "id"@ => match request.id {
                RequestIdView::Integer(n) => JsonView::Integer(n),
                RequestIdView::String(s) => JsonView::String(s),
                RequestIdView::Null => JsonView::Null,
            },
            "method"@ => JsonView::String(request.method),
            "params"@ => request.params,
        ],
    )
}

/// Whether the number that a request is called by, if it is a number, fits an
/// `i64`.
pub open spec fn has_fitting_id(id: RequestIdView) -> bool {
    id matches RequestIdView::Integer(n) ==> -0x8000_0000_0000_0000 <= n <= 0x7fff_ffff_ffff_ffff
}

proof fn member_names_differ()
    ensures
        "jsonrpc"@ != "id"@,
        "jsonrpc"@ != "method"@,
        "jsonrpc"@ != "params"@,
        "id"@ != "method"@,
        "id"@ != "params"@,
        "method"@ != "params"@,
{
    reveal_strlit("jsonrpc");
    reveal_strlit("id");
    reveal_strlit("method");
    reveal_strlit("params");
    assert("jsonrpc"@.len() == 7 && "id"@.len() == 2 && "method"@.len() == 6 && "params"@.len()
        == 6);
    assert("method"@[0] == 'm' && "params"@[0] == 'p');
}

/// A request gets what the message gets that carries it, and to the same effect.
pub proof fn request_is_answered_as_its_message(request: RequestView, session: SessionView)
    requires
        has_fitting_id(request.id),
    ensures
        outcome(message_with(request), session) == Some(answer(request, session)),
        after_message(message_with(request), session) == after_request(request, session),
{
    member_names_differ();
}

/// A notification has the effect of the message that carries it.
pub proof fn notification_counts_as_its_message(
    notification: NotificationView,
    session: SessionView,
)
    ensures
        after_message(
            JsonView::Object(
                map![
                    "jsonrpc"@ => JsonView::String(notification.jsonrpc),
                    "method"@ => JsonView::String(notification.method),
                ],
            ),
            session,
        ) == after_notification(notification, session),
{
    member_names_differ();
}

/// The request for a method.
pub open spec fn request_for(
    id: RequestIdView,
    method: Seq<char>,
    params: JsonView,
) -> RequestView {
    RequestView { jsonrpc: "2.0"@, id, method, params }
}

/// What answers a method is what a message with that method gets: `initialize` in
/// every session, and the others in an open one.
pub proof fn methods_are_answered_as_their_messages(
    id: RequestIdView,
    params: JsonView,
    session: SessionView,
)
    requires
        has_fitting_id(id),
    ensures
        ({
            let message = message_with(request_for(id, "initialize"@, params));
            &&& outcome(message, session) == Some(
                initialize_answer(id, params, session.init_state),
            )
            &&& after_message(message, session) == after_initialize(params, session)
        }),
        ({
            let open = SessionView { init_state: InitState::Initialized, ..session };
            let message = message_with(request_for(id, "logging/setLevel"@, params));
            &&& outcome(message, open) == Some(logging_set_level_answer(id, params))
            &&& after_logging_set_level(params, session) == (SessionView {
                init_state: session.init_state,
                client_info: session.client_info,
                client_capabilities: session.client_capabilities,
                log_level: after_message(message, open).log_level,
            })
            &&& outcome(message_with(request_for(id, "tools/call"@, params)), open) == Some(
                tools_call_answer(id, params),
            )
            &&& outcome(message_with(request_for(id, "resources/read"@, params)), open) == Some(
                resources_read_answer(id, params),
            )
            &&& outcome(message_with(request_for(id, "prompts/get"@, params)), open) == Some(
                prompts_get_answer(id, params),
            )
            &&& outcome(message_with(request_for(id, "completion/complete"@, params)), open)
                == Some(completion_complete_answer(id, params))
        }),
{
    method_names_differ();
    let open = SessionView { init_state: InitState::Initialized, ..session };
    request_is_answered_as_its_message(request_for(id, "initialize"@, params), session);
    request_is_answered_as_its_message(request_for(id, "logging/setLevel"@, params), open);
    request_is_answered_as_its_message(request_for(id, "tools/call"@, params), open);
    request_is_answered_as_its_message(request_for(id, "resources/read"@, params), open);
    request_is_answered_as_its_message(request_for(id, "prompts/get"@, params), open);
    request_is_answered_as_its_message(request_for(id, "completion/complete"@, params), open);
}

/// A method may be called in an open session, and `initialize` and `ping` always.
/// Any other is refused with the words that a message with that method gets.
pub proof fn methods_are_refused_as_their_messages(
    id: RequestIdView,
    method: Seq<char>,
    params: JsonView,
    session: SessionView,
)
    requires
        has_fitting_id(id),
    ensures
        refusal(session.init_state, method) is None <==> (session.init_state
            == InitState::Initialized || method == "initialize"@ || method == "ping"@),
        refusal(session.init_state, method) matches Some(why) ==> outcome(
            message_with(request_for(id, method, params)),
            session,
        ) == Some(error_with(id.json(), -32002, why, JsonView::Null)),
{
    responses_are_alike(id);
    request_is_answered_as_its_message(request_for(id, method, params), session);
}

/// What a message or a batch gets depends on how far the session has come, and on
/// nothing else that the session holds.
pub proof fn outcome_depends_on_the_stage_alone(
    message: JsonView,
    session: SessionView,
    other: SessionView,
)
    requires
        session.init_state == other.init_state,
    ensures
        outcome(message, session) == outcome(message, other),
        after_message(message, session).init_state == after_message(message, other).init_state,
{
    if let JsonView::Array(messages) = message {
        replies_depend_on_the_stage_alone(messages, session, other);
    }
}

proof fn replies_depend_on_the_stage_alone(
    messages: Seq<JsonView>,
    session: SessionView,
    other: SessionView,
)
    requires
        session.init_state == other.init_state,
    ensures
        replies(messages, session) == replies(messages, other),
        after_batch(messages, session).init_state == after_batch(messages, other).init_state,
    decreases messages.len(),
{
    if messages.len() > 0 {
        replies_depend_on_the_stage_alone(messages.drop_last(), session, other);
    }
}

/// A value that may be missing is seen as what it is, and a member as what the
/// object has under its name.
pub proof fn values_are_seen_as_they_are(json: Option<Json>, value: JsonView, name: Seq<char>)
    ensures
        json is None <==> optional_view(json) is None,
        json matches Some(known) ==> optional_view(json) == Some(known@),
        value.member(name) == under(value, name),
{
}

/// A session in which nothing has been said has not begun, knows nothing of its
/// client, and has no level of logging.
pub proof fn fresh_session_holds_nothing()
    ensures
        SessionView::fresh() == (SessionView {
            init_state: InitState::Uninitialized,
            client_info: None,
            client_capabilities: JsonView::Null,
            log_level: Seq::empty(),
        }),
{
}

} // verus!
