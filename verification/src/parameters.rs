//! Which values can be read as messages and parameters, and why the others cannot,
//! told from the values themselves.
use serde_json::Error;
use vstd::prelude::*;

use crate::answers::{
    asks_for_version, capabilities_given, gives_no_text, gives_text, info_given, is_id,
    names_implementation, tells_client, under,
};
use crate::decode::{
    agrees, completion_params, implementation_info, initialize_params, logging_set_level_params,
    notification_of, prompt_get_params, request_of, resource_read_params, tool_call_params,
    InfoView, InitializeView,
};
use crate::json::JsonView;
use crate::message::{NotificationView, RequestIdView, RequestView};
use crate::value::{
    error_message, invalid_length_message, invalid_type_message, missing_field_message,
};

verus! {

/// Why parameters give no text: it is missing, it is of another kind, the array is
/// too short or too long, or the parameters are neither an object nor an array.
pub open spec fn reason_for_no_text(
    params: JsonView,
    name: Seq<char>,
    label: Seq<char>,
    counted: Seq<char>,
) -> Seq<char> {
    match params {
        JsonView::Object(_) => match under(params, name) {
            None => missing_field_message(name),
            Some(value) => invalid_type_message(value, "a string"@),
        },
        JsonView::Array(items) => if items.len() == 0 {
            invalid_length_message(0, counted)
        } else if items[0] !is String {
            invalid_type_message(items[0], "a string"@)
        } else {
            invalid_length_message(items.len() as int, "fewer elements in array"@)
        },
        _ => invalid_type_message(params, label),
    }
}

/// The value that parameters give beside a text, or `null`: under a name in an
/// object, or second in an array.
pub open spec fn given_beside(params: JsonView, name: Seq<char>) -> JsonView {
    match params {
        JsonView::Object(_) => match under(params, name) {
            Some(value) => value,
            None => JsonView::Null,
        },
        JsonView::Array(items) => if items.len() >= 2 {
            items[1]
        } else {
            JsonView::Null
        },
        _ => JsonView::Null,
    }
}

/// The parameters of `tools/call` are a name, any text, and arguments, any value or
/// none.
pub proof fn tool_call_params_are_as_given(params: JsonView)
    ensures
        forall|name: Seq<char>| #[trigger]
            gives_text(params, "name"@, 2, name) ==> tool_call_params(params) == Ok::<
                (Seq<char>, JsonView),
                Seq<char>,
            >((name, given_beside(params, "arguments"@))),
        gives_no_text(params, "name"@, 2) ==> tool_call_params(params) == Err::<
            (Seq<char>, JsonView),
            Seq<char>,
        >(
            reason_for_no_text(
                params,
                "name"@,
                "struct ToolCallParams"@,
                "struct ToolCallParams with 2 elements"@,
            ),
        ),
{
    if tool_call_params(params) is Ok {
        assert(gives_text(params, "name"@, 2, tool_call_params(params)->Ok_0.0));
    }
}

/// The parameters of `prompts/get` are a name, any text, and arguments, any value
/// or none.
pub proof fn prompt_get_params_are_as_given(params: JsonView)
    ensures
        forall|name: Seq<char>| #[trigger]
            gives_text(params, "name"@, 2, name) ==> prompt_get_params(params) == Ok::<
                (Seq<char>, JsonView),
                Seq<char>,
            >((name, given_beside(params, "arguments"@))),
        gives_no_text(params, "name"@, 2) ==> prompt_get_params(params) == Err::<
            (Seq<char>, JsonView),
            Seq<char>,
        >(
            reason_for_no_text(
                params,
                "name"@,
                "struct PromptGetParams"@,
                "struct PromptGetParams with 2 elements"@,
            ),
        ),
{
    if prompt_get_params(params) is Ok {
        assert(gives_text(params, "name"@, 2, prompt_get_params(params)->Ok_0.0));
    }
}

/// The parameter of `resources/read` is any text.
pub proof fn resource_read_params_are_as_given(params: JsonView)
    ensures
        forall|uri: Seq<char>| #[trigger]
            gives_text(params, "uri"@, 1, uri) ==> resource_read_params(params) == Ok::<
                Seq<char>,
                Seq<char>,
            >(uri),
        gives_no_text(params, "uri"@, 1) ==> resource_read_params(params) == Err::<
            Seq<char>,
            Seq<char>,
        >(
            reason_for_no_text(
                params,
                "uri"@,
                "struct ResourceReadParams"@,
                "struct ResourceReadParams with 1 element"@,
            ),
        ),
{
    if resource_read_params(params) is Ok {
        assert(gives_text(params, "uri"@, 1, resource_read_params(params)->Ok_0));
    }
}

/// The parameter of `logging/setLevel` is any text.
pub proof fn logging_set_level_params_are_as_given(params: JsonView)
    ensures
        forall|level: Seq<char>| #[trigger]
            gives_text(params, "level"@, 1, level) ==> logging_set_level_params(params) == Ok::<
                Seq<char>,
                Seq<char>,
            >(level),
        gives_no_text(params, "level"@, 1) ==> logging_set_level_params(params) == Err::<
            Seq<char>,
            Seq<char>,
        >(
            reason_for_no_text(
                params,
                "level"@,
                "struct LoggingSetLevelParams"@,
                "struct LoggingSetLevelParams with 1 element"@,
            ),
        ),
{
    if logging_set_level_params(params) is Ok {
        assert(gives_text(params, "level"@, 1, logging_set_level_params(params)->Ok_0));
    }
}

/// The parameters of `completion/complete` are any two values or none.
pub proof fn completion_params_are_as_given(params: JsonView)
    ensures
        params is Object ==> completion_params(params) == Ok::<(JsonView, JsonView), Seq<char>>(
            (given_beside(params, "ref"@), given_beside(params, "argument"@)),
        ),
        params matches JsonView::Array(items) ==> completion_params(params) == (if items.len()
            > 2 {
            Err::<(JsonView, JsonView), Seq<char>>(
                invalid_length_message(items.len() as int, "fewer elements in array"@),
            )
        } else {
            Ok(
                (
                    if items.len() > 0 {
                        items[0]
                    } else {
                        JsonView::Null
                    },
                    given_beside(params, "argument"@),
                ),
            )
        }),
        params !is Object && params !is Array ==> completion_params(params) == Err::<
            (JsonView, JsonView),
            Seq<char>,
        >(invalid_type_message(params, "struct CompletionCompleteParams"@)),
{
}

/// Whether an object has something else than a text under a name.
pub open spec fn wrong_kind(json: JsonView, name: Seq<char>) -> bool {
    under(json, name) matches Some(value) && value !is String
}

/// Why a value does not name an implementation.
pub open spec fn reason_for_no_implementation(json: JsonView) -> Seq<char> {
    match json {
        JsonView::Object(_) => if wrong_kind(json, "name"@) {
            invalid_type_message(under(json, "name"@)->0, "a string"@)
        } else if wrong_kind(json, "version"@) {
            invalid_type_message(under(json, "version"@)->0, "a string"@)
        } else if under(json, "name"@) is None {
            missing_field_message("name"@)
        } else {
            missing_field_message("version"@)
        },
        JsonView::Array(items) => if items.len() > 0 && items[0] !is String {
            invalid_type_message(items[0], "a string"@)
        } else if items.len() > 1 && items[1] !is String {
            invalid_type_message(items[1], "a string"@)
        } else if items.len() < 2 {
            invalid_length_message(
                items.len() as int,
                "struct ImplementationInfo with 2 elements"@,
            )
        } else {
            invalid_length_message(items.len() as int, "fewer elements in array"@)
        },
        _ => invalid_type_message(json, "struct ImplementationInfo"@),
    }
}

/// An implementation is named by any two texts.
pub proof fn implementation_is_as_named(json: JsonView)
    ensures
        forall|name: Seq<char>, version: Seq<char>| #[trigger]
            names_implementation(json, name, version) ==> implementation_info(json) == Ok::<
                InfoView,
                Seq<char>,
            >(InfoView { name, version }),
        (forall|name: Seq<char>, version: Seq<char>|
            !#[trigger] names_implementation(json, name, version)) ==> implementation_info(json)
            == Err::<InfoView, Seq<char>>(reason_for_no_implementation(json)),
{
    if implementation_info(json) is Ok {
        let info = implementation_info(json)->Ok_0;
        if let JsonView::Array(items) = json {
            assert(items =~= seq![JsonView::String(info.name), JsonView::String(info.version)]);
        }
        assert(names_implementation(json, info.name, info.version));
    }
}

/// Why parameters of `initialize` cannot be read. In an object the client comes
/// before the version of the protocol, in an array after it.
pub open spec fn reason_for_no_beginning(params: JsonView) -> Seq<char> {
    let client_is_told = exists|client: Option<InfoView>| #[trigger]
        tells_client(info_given(params), client);
    match params {
        JsonView::Object(_) => if !client_is_told {
            reason_for_no_implementation(info_given(params))
        } else if wrong_kind(params, "protocolVersion"@) {
            invalid_type_message(under(params, "protocolVersion"@)->0, "a string"@)
        } else {
            missing_field_message("protocolVersion"@)
        },
        JsonView::Array(items) => if items.len() == 0 {
            invalid_length_message(0, "struct InitializeParams with 3 elements"@)
        } else if items[0] !is String {
            invalid_type_message(items[0], "a string"@)
        } else if !client_is_told {
            reason_for_no_implementation(info_given(params))
        } else {
            invalid_length_message(items.len() as int, "fewer elements in array"@)
        },
        _ => invalid_type_message(params, "struct InitializeParams"@),
    }
}

/// The parameters of `initialize` are a version, any text, capabilities, any value
/// or none, and what implementation the client is, or nothing.
pub proof fn initialize_params_are_as_given(params: JsonView)
    ensures
        forall|version: Seq<char>, client: Option<InfoView>| #[trigger]
            asks_for_version(params, version, client) ==> initialize_params(params) == Ok::<
                InitializeView,
                Seq<char>,
            >(
                InitializeView {
                    protocol_version: version,
                    capabilities: capabilities_given(params),
                    client_info: client,
                },
            ),
        (forall|version: Seq<char>, client: Option<InfoView>|
            !#[trigger] asks_for_version(params, version, client)) ==> initialize_params(params)
            == Err::<InitializeView, Seq<char>>(reason_for_no_beginning(params)),
{
    let json = info_given(params);
    implementation_is_as_named(json);
    if json is Null {
        assert(tells_client(json, None));
    }
    if implementation_info(json) is Ok {
        let info = implementation_info(json)->Ok_0;
        assert(names_implementation(json, info.name, info.version)) by {
            if let JsonView::Array(items) = json {
                assert(items =~= seq![JsonView::String(info.name), JsonView::String(info.version)]);
            }
        }
        assert(tells_client(json, Some(info)));
    }
    assert forall|client: Option<InfoView>| #[trigger] tells_client(json, client) implies (json
        is Null && client is None) || (implementation_info(json) is Ok && client == Some(
        implementation_info(json)->Ok_0,
    )) by {
        if let Some(info) = client {
            assert(names_implementation(json, info.name, info.version));
        }
    }
    if initialize_params(params) is Ok {
        let wanted = initialize_params(params)->Ok_0;
        assert(asks_for_version(params, wanted.protocol_version, wanted.client_info));
    }
}

/// A request is read from the members of an object: a version and a method, any two
/// texts, an id that a request can be called by, and parameters, any value or none.
/// Where one of these is not so, the reason is the first that holds of: the id, the
/// version or the method is of another kind; the version, the id or the method is
/// missing.
pub proof fn request_is_as_given(members: Map<Seq<char>, JsonView>)
    ensures
        ({
            let message = JsonView::Object(members);
            let read = request_of(members);
            let id = under(message, "id"@);
            if id is Some && !is_id(id->0) {
                read == Err::<RequestView, Seq<char>>(
                    "data did not match any variant of untagged enum RequestId"@,
                )
            } else if wrong_kind(message, "jsonrpc"@) {
                read == Err::<RequestView, Seq<char>>(
                    invalid_type_message(under(message, "jsonrpc"@)->0, "a string"@),
                )
            } else if wrong_kind(message, "method"@) {
                read == Err::<RequestView, Seq<char>>(
                    invalid_type_message(under(message, "method"@)->0, "a string"@),
                )
            } else if under(message, "jsonrpc"@) is None {
                read == Err::<RequestView, Seq<char>>(missing_field_message("jsonrpc"@))
            } else if id is None {
                read == Err::<RequestView, Seq<char>>(missing_field_message("id"@))
            } else if under(message, "method"@) is None {
                read == Err::<RequestView, Seq<char>>(missing_field_message("method"@))
            } else {
                &&& read is Ok
                &&& under(message, "jsonrpc"@) == Some(JsonView::String(read->Ok_0.jsonrpc))
                &&& under(message, "method"@) == Some(JsonView::String(read->Ok_0.method))
                &&& match read->Ok_0.id {
                    RequestIdView::Integer(n) => id == Some(JsonView::Integer(n)),
                    RequestIdView::String(s) => id == Some(JsonView::String(s)),
                    RequestIdView::Null => id == Some(JsonView::Null),
                }
                &&& read->Ok_0.params == match under(message, "params"@) {
                    Some(params) => params,
                    None => JsonView::Null,
                }
            }
        }),
{
}

/// A notification is read from the members of an object: a version and a method,
/// any two texts. Where one is not, the reason is the first that holds of: the
/// version or the method is of another kind; the version or the method is missing.
pub proof fn notification_is_as_given(members: Map<Seq<char>, JsonView>)
    ensures
        ({
            let message = JsonView::Object(members);
            let read = notification_of(members);
            if wrong_kind(message, "jsonrpc"@) {
                read == Err::<NotificationView, Seq<char>>(
                    invalid_type_message(under(message, "jsonrpc"@)->0, "a string"@),
                )
            } else if wrong_kind(message, "method"@) {
                read == Err::<NotificationView, Seq<char>>(
                    invalid_type_message(under(message, "method"@)->0, "a string"@),
                )
            } else if under(message, "jsonrpc"@) is None {
                read == Err::<NotificationView, Seq<char>>(missing_field_message("jsonrpc"@))
            } else if under(message, "method"@) is None {
                read == Err::<NotificationView, Seq<char>>(missing_field_message("method"@))
            } else {
                &&& read is Ok
                &&& under(message, "jsonrpc"@) == Some(JsonView::String(read->Ok_0.jsonrpc))
                &&& under(message, "method"@) == Some(JsonView::String(read->Ok_0.method))
            }
        }),
{
}

/// What was read agrees with one thing only: the value that it shows, or the
/// message of the error.
pub proof fn agreement_is_exact<T: View>(read: Result<T, Error>, expected: Result<T::V, Seq<char>>)
    requires
        agrees(read, expected),
    ensures
        match (read, expected) {
            (Ok(value), Ok(shown)) => value@ == shown,
            (Err(error), Err(message)) => error_message(error) == message,
            _ => false,
        },
{
}

} // verus!
