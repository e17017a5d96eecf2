//! Reading messages and the parameters of methods out of JSON values.
//!
//! A structure is read from an object by the names of its members, or from an
//! array by position. Members of other names are left alone. The members of an
//! object are read in the order of their names; that decides which error is
//! told where there are several. A member that is missing comes last.
use serde_json::Error;
use vstd::prelude::*;

use crate::json::{items_view, Json, JsonView, Object};
use crate::message::{
    optional_view, JsonRpcNotification, JsonRpcRequest, NotificationView, RequestId, RequestIdView,
    RequestView,
};
use crate::value::{
    custom_error, ends_in_digit, error_message, invalid_length, invalid_length_message,
    invalid_type, invalid_type_message, missing_field, missing_field_message,
};

verus! {

/// Name and version of an implementation of the protocol.
#[derive(Debug)]
pub struct ImplementationInfo {
    pub name: String,
    pub version: String,
}

/// What a client says of itself when a session begins.
#[derive(Debug)]
pub struct InitializeParams {
    pub protocol_version: String,
    pub capabilities: Json,
    pub client_info: Option<ImplementationInfo>,
}

/// The parameters of `tools/call`.
#[derive(Debug)]
pub struct ToolCallParams {
    pub name: String,
    pub arguments: Json,
}

/// The parameters of `resources/read`.
#[derive(Debug)]
pub struct ResourceReadParams {
    pub uri: String,
}

/// The parameters of `prompts/get`.
#[derive(Debug)]
pub struct PromptGetParams {
    pub name: String,
    pub arguments: Json,
}

/// The parameters of `logging/setLevel`.
#[derive(Debug)]
pub struct LoggingSetLevelParams {
    pub level: String,
}

/// The parameters of `completion/complete`.
#[derive(Debug)]
pub struct CompletionCompleteParams {
    pub reference: Json,
    pub argument: Json,
}

/// What an [`ImplementationInfo`] is.
pub struct InfoView {
    pub name: Seq<char>,
    pub version: Seq<char>,
}

/// What [`InitializeParams`] are.
pub struct InitializeView {
    pub protocol_version: Seq<char>,
    pub capabilities: JsonView,
    pub client_info: Option<InfoView>,
}

impl View for ImplementationInfo {
    type V = InfoView;

    open spec fn view(&self) -> InfoView {
        InfoView { name: self.name@, version: self.version@ }
    }
}

impl View for InitializeParams {
    type V = InitializeView;

    open spec fn view(&self) -> InitializeView {
        InitializeView {
            protocol_version: self.protocol_version@,
            capabilities: self.capabilities@,
            client_info: optional_info_view(self.client_info),
        }
    }
}

/// What optional information on an implementation is.
pub open spec fn optional_info_view(info: Option<ImplementationInfo>) -> Option<InfoView> {
    match info {
        Some(known) => Some(known@),
        None => None,
    }
}

impl View for ToolCallParams {
    type V = (Seq<char>, JsonView);

    open spec fn view(&self) -> (Seq<char>, JsonView) {
        (self.name@, self.arguments@)
    }
}

impl View for PromptGetParams {
    type V = (Seq<char>, JsonView);

    open spec fn view(&self) -> (Seq<char>, JsonView) {
        (self.name@, self.arguments@)
    }
}

impl View for ResourceReadParams {
    type V = Seq<char>;

    open spec fn view(&self) -> Seq<char> {
        self.uri@
    }
}

impl View for LoggingSetLevelParams {
    type V = Seq<char>;

    open spec fn view(&self) -> Seq<char> {
        self.level@
    }
}

impl View for CompletionCompleteParams {
    type V = (JsonView, JsonView);

    open spec fn view(&self) -> (JsonView, JsonView) {
        (self.reference@, self.argument@)
    }
}

/// What an array with too many elements is said to lack.
pub const FEWER_ELEMENTS: &'static str = "fewer elements in array";

/// What is said of an id that is neither an `i64`, nor a text, nor `null`.
pub const NO_REQUEST_ID: &'static str =
    "data did not match any variant of untagged enum RequestId";

/// Whether what was read is what it should be: the same value, or an error with
/// the same message.
pub open spec fn agrees<T: View>(
    outcome: Result<T, Error>,
    expected: Result<T::V, Seq<char>>,
) -> bool {
    match outcome {
        Ok(value) => expected == Ok::<T::V, Seq<char>>(value@),
        Err(error) => expected == Err::<T::V, Seq<char>>(error_message(error)),
    }
}

/// The text that a value is.
pub open spec fn text_of(json: JsonView) -> Result<Seq<char>, Seq<char>> {
    match json {
        JsonView::String(s) => Ok(s),
        other => Err(invalid_type_message(other, "a string"@)),
    }
}

/// The text that a value is, where there is a value.
pub open spec fn optional_text_of(json: Option<JsonView>) -> Result<Option<Seq<char>>, Seq<char>> {
    match json {
        None => Ok(None),
        Some(value) => match text_of(value) {
            Ok(s) => Ok(Some(s)),
            Err(message) => Err(message),
        },
    }
}

/// A value, or `null` where there is none.
pub open spec fn or_null(json: Option<JsonView>) -> JsonView {
    match json {
        Some(value) => value,
        None => JsonView::Null,
    }
}

/// The element of an array at a position that it may not reach.
pub open spec fn element(items: Seq<JsonView>, at: int) -> Option<JsonView> {
    if 0 <= at < items.len() {
        Some(items[at])
    } else {
        None
    }
}

/// The id that a value is.
pub open spec fn request_id_of(json: JsonView) -> Option<RequestIdView> {
    match json {
        JsonView::Integer(n) => if i64::MIN <= n <= i64::MAX {
            Some(RequestIdView::Integer(n))
        } else {
            None
        },
        JsonView::String(s) => Some(RequestIdView::String(s)),
        JsonView::Null => Some(RequestIdView::Null),
        _ => None,
    }
}

/// The request that the members of an object make up.
pub open spec fn request_of(members: Map<Seq<char>, JsonView>) -> Result<RequestView, Seq<char>> {
    let id = members.get("id"@);
    let jsonrpc = optional_text_of(members.get("jsonrpc"@));
    let method = optional_text_of(members.get("method"@));
    if id is Some && request_id_of(id->0) is None {
        Err(NO_REQUEST_ID@)
    } else if jsonrpc is Err {
        Err(jsonrpc->Err_0)
    } else if method is Err {
        Err(method->Err_0)
    } else if jsonrpc->Ok_0 is None {
        Err(missing_field_message("jsonrpc"@))
    } else if id is None {
        Err(missing_field_message("id"@))
    } else if method->Ok_0 is None {
        Err(missing_field_message("method"@))
    } else {
        Ok(
            RequestView {
                jsonrpc: jsonrpc->Ok_0->0,
                id: request_id_of(id->0)->0,
                method: method->Ok_0->0,
                params: or_null(members.get("params"@)),
            },
        )
    }
}

/// The notification that the members of an object make up.
pub open spec fn notification_of(members: Map<Seq<char>, JsonView>) -> Result<
    NotificationView,
    Seq<char>,
> {
    let jsonrpc = optional_text_of(members.get("jsonrpc"@));
    let method = optional_text_of(members.get("method"@));
    if jsonrpc is Err {
        Err(jsonrpc->Err_0)
    } else if method is Err {
        Err(method->Err_0)
    } else if jsonrpc->Ok_0 is None {
        Err(missing_field_message("jsonrpc"@))
    } else if method->Ok_0 is None {
        Err(missing_field_message("method"@))
    } else {
        Ok(NotificationView { jsonrpc: jsonrpc->Ok_0->0, method: method->Ok_0->0 })
    }
}

/// A text that has to be there, and a value that may follow it. `first` and
/// `second` are the names of the two in an object, `label` is what the whole is
/// called, and `counted` is `label` with the number of elements.
pub open spec fn leading_text(
    params: JsonView,
    first: Seq<char>,
    second: Option<Seq<char>>,
    label: Seq<char>,
    counted: Seq<char>,
) -> Result<(Seq<char>, JsonView), Seq<char>> {
    match params {
        JsonView::Object(members) => match optional_text_of(members.get(first)) {
            Err(message) => Err(message),
            Ok(None) => Err(missing_field_message(first)),
            Ok(Some(s)) => Ok(
                (
                    s,
                    match second {
                        Some(name) => or_null(members.get(name)),
                        None => JsonView::Null,
                    },
                ),
            ),
        },
        JsonView::Array(items) => match optional_text_of(element(items, 0)) {
            Err(message) => Err(message),
            Ok(None) => Err(invalid_length_message(0, counted)),
            Ok(Some(s)) => if items.len() > 2 || (second is None && items.len() > 1) {
                Err(invalid_length_message(items.len() as int, FEWER_ELEMENTS@))
            } else {
                Ok((s, or_null(element(items, 1))))
            },
        },
        other => Err(invalid_type_message(other, label)),
    }
}

/// A text alone that has to be there.
pub open spec fn lone_text(
    params: JsonView,
    first: Seq<char>,
    label: Seq<char>,
    counted: Seq<char>,
) -> Result<Seq<char>, Seq<char>> {
    match leading_text(params, first, None, label, counted) {
        Ok((s, _)) => Ok(s),
        Err(message) => Err(message),
    }
}

/// The parameters of `tools/call`: name and arguments.
pub open spec fn tool_call_params(params: JsonView) -> Result<(Seq<char>, JsonView), Seq<char>> {
    leading_text(
        params,
        "name"@,
        Some("arguments"@),
        "struct ToolCallParams"@,
        "struct ToolCallParams with 2 elements"@,
    )
}

/// The parameters of `prompts/get`: name and arguments.
pub open spec fn prompt_get_params(params: JsonView) -> Result<(Seq<char>, JsonView), Seq<char>> {
    leading_text(
        params,
        "name"@,
        Some("arguments"@),
        "struct PromptGetParams"@,
        "struct PromptGetParams with 2 elements"@,
    )
}

/// The parameter of `resources/read`: the address.
pub open spec fn resource_read_params(params: JsonView) -> Result<Seq<char>, Seq<char>> {
    lone_text(
        params,
        "uri"@,
        "struct ResourceReadParams"@,
        "struct ResourceReadParams with 1 element"@,
    )
}

/// The parameter of `logging/setLevel`: the level.
pub open spec fn logging_set_level_params(params: JsonView) -> Result<Seq<char>, Seq<char>> {
    lone_text(
        params,
        "level"@,
        "struct LoggingSetLevelParams"@,
        "struct LoggingSetLevelParams with 1 element"@,
    )
}

/// The parameters of `completion/complete`: what is to be completed and the
/// argument, either of which may be left out.
pub open spec fn completion_params(params: JsonView) -> Result<(JsonView, JsonView), Seq<char>> {
    match params {
        JsonView::Object(members) => Ok(
            (or_null(members.get("ref"@)), or_null(members.get("argument"@))),
        ),
        JsonView::Array(items) => if items.len() > 2 {
            Err(invalid_length_message(items.len() as int, FEWER_ELEMENTS@))
        } else {
            Ok((or_null(element(items, 0)), or_null(element(items, 1))))
        },
        other => Err(invalid_type_message(other, "struct CompletionCompleteParams"@)),
    }
}

/// Name and version of an implementation.
pub open spec fn implementation_info(json: JsonView) -> Result<InfoView, Seq<char>> {
    let counted = "struct ImplementationInfo with 2 elements"@;
    match json {
        JsonView::Object(members) => {
            let name = optional_text_of(members.get("name"@));
            let version = optional_text_of(members.get("version"@));
            if name is Err {
                Err(name->Err_0)
            } else if version is Err {
                Err(version->Err_0)
            } else if name->Ok_0 is None {
                Err(missing_field_message("name"@))
            } else if version->Ok_0 is None {
                Err(missing_field_message("version"@))
            } else {
                Ok(InfoView { name: name->Ok_0->0, version: version->Ok_0->0 })
            }
        },
        JsonView::Array(items) => {
            let name = optional_text_of(element(items, 0));
            let version = optional_text_of(element(items, 1));
            if name is Err {
                Err(name->Err_0)
            } else if name->Ok_0 is None {
                Err(invalid_length_message(0, counted))
            } else if version is Err {
                Err(version->Err_0)
            } else if version->Ok_0 is None {
                Err(invalid_length_message(1, counted))
            } else if items.len() > 2 {
                Err(invalid_length_message(items.len() as int, FEWER_ELEMENTS@))
            } else {
                Ok(InfoView { name: name->Ok_0->0, version: version->Ok_0->0 })
            }
        },
        other => Err(invalid_type_message(other, "struct ImplementationInfo"@)),
    }
}

/// Name and version of an implementation, where there is a value and it is not
/// `null`.
pub open spec fn optional_info_of(json: Option<JsonView>) -> Result<Option<InfoView>, Seq<char>> {
    match or_null(json) {
        JsonView::Null => Ok(None),
        value => match implementation_info(value) {
            Ok(info) => Ok(Some(info)),
            Err(message) => Err(message),
        },
    }
}

/// The parameters of `initialize`: the protocol version, and the capabilities
/// and the implementation of the client, either of which may be left out.
pub open spec fn initialize_params(params: JsonView) -> Result<InitializeView, Seq<char>> {
    match params {
        JsonView::Object(members) => {
            let info = optional_info_of(members.get("clientInfo"@));
            let version = optional_text_of(members.get("protocolVersion"@));
            if info is Err {
                Err(info->Err_0)
            } else if version is Err {
                Err(version->Err_0)
            } else if version->Ok_0 is None {
                Err(missing_field_message("protocolVersion"@))
            } else {
                Ok(
                    InitializeView {
                        protocol_version: version->Ok_0->0,
                        capabilities: or_null(members.get("capabilities"@)),
                        client_info: info->Ok_0,
                    },
                )
            }
        },
        JsonView::Array(items) => {
            let version = optional_text_of(element(items, 0));
            let info = optional_info_of(element(items, 2));
            if version is Err {
                Err(version->Err_0)
            } else if version->Ok_0 is None {
                Err(invalid_length_message(0, "struct InitializeParams with 3 elements"@))
            } else if info is Err {
                Err(info->Err_0)
            } else if items.len() > 3 {
                Err(invalid_length_message(items.len() as int, FEWER_ELEMENTS@))
            } else {
                Ok(
                    InitializeView {
                        protocol_version: version->Ok_0->0,
                        capabilities: or_null(element(items, 1)),
                        client_info: info->Ok_0,
                    },
                )
            }
        },
        other => Err(invalid_type_message(other, "struct InitializeParams"@)),
    }
}

/// Reads a text.
fn decode_text(json: Json) -> (outcome: Result<String, Error>)
    ensures
        agrees(outcome, text_of(json@)),
{
    match json {
        Json::String(s) => Ok(s),
        other => {
            proof {
                reveal_strlit("a string");
            }
            Err(invalid_type(&other, "a string"))
        },
    }
}

/// Reads a text, where there is a value.
fn decode_optional_text(json: Option<Json>) -> (outcome: Result<Option<String>, Error>)
    ensures
        match outcome {
            Ok(Some(s)) => optional_text_of(optional_view(json)) == Ok::<
                Option<Seq<char>>,
                Seq<char>,
            >(Some(s@)),
            Ok(None) => optional_text_of(optional_view(json)) == Ok::<
                Option<Seq<char>>,
                Seq<char>,
            >(None),
            Err(error) => optional_text_of(optional_view(json)) == Err::<
                Option<Seq<char>>,
                Seq<char>,
            >(error_message(error)),
        },
{
    match json {
        None => Ok(None),
        Some(value) => match decode_text(value) {
            Ok(s) => Ok(Some(s)),
            Err(error) => Err(error),
        },
    }
}

/// A value, or `null` where there is none.
fn value_or_null(json: Option<Json>) -> (value: Json)
    ensures
        value@ == or_null(optional_view(json)),
{
    match json {
        Some(value) => value,
        None => Json::Null,
    }
}

/// Moves the first element out of a list, where it has one. The others move up.
fn take_first(items: &mut Vec<Json>) -> (first: Option<Json>)
    ensures
        optional_view(first) == element(items_view(old(items)@), 0),
        forall|at: int|
            0 <= at ==> #[trigger] element(items_view(final(items)@), at) == element(
                items_view(old(items)@),
                at + 1,
            ),
{
    if items.len() == 0 {
        return None;
    }
    Some(items.remove(0))
}

/// Reads an id.
fn decode_request_id(json: Json) -> (id: Option<RequestId>)
    ensures
        match id {
            Some(known) => request_id_of(json@) == Some(known@),
            None => request_id_of(json@) is None,
        },
{
    match json {
        Json::Unsigned(n) => if n <= 0x7fff_ffff_ffff_ffff {
            Some(RequestId::Integer(n as i64))
        } else {
            None
        },
        Json::Signed(n) => Some(RequestId::Integer(n)),
        Json::String(s) => Some(RequestId::String(s)),
        Json::Null => Some(RequestId::Null),
        _ => None,
    }
}

/// Reads a request.
pub fn decode_request(object: Object) -> (outcome: Result<JsonRpcRequest, Error>)
    ensures
        agrees(outcome, request_of(object@)),
{
    proof {
        reveal_strlit("id");
        reveal_strlit("jsonrpc");
        reveal_strlit("method");
        reveal_strlit("params");
        reveal_strlit("data did not match any variant of untagged enum RequestId");
        assert("id"@.len() == 2 && "jsonrpc"@.len() == 7 && "method"@[0] == 'm' && "params"@[0]
            == 'p');
    }
    let mut members = object;
    let id = match members.take("id") {
        Some(value) => match decode_request_id(value) {
            Some(id) => Some(id),
            None => return Err(custom_error(NO_REQUEST_ID)),
        },
        None => None,
    };
    let jsonrpc = match decode_optional_text(members.take("jsonrpc")) {
        Ok(found) => found,
        Err(error) => return Err(error),
    };
    let method = match decode_optional_text(members.take("method")) {
        Ok(found) => found,
        Err(error) => return Err(error),
    };
    let params = value_or_null(members.take("params"));
    let jsonrpc = match jsonrpc {
        Some(found) => found,
        None => return Err(missing_field("jsonrpc")),
    };
    let id = match id {
        Some(found) => found,
        None => return Err(missing_field("id")),
    };
    let method = match method {
        Some(found) => found,
        None => return Err(missing_field("method")),
    };
    Ok(JsonRpcRequest { jsonrpc, id, method, params })
}

/// Reads a notification.
pub fn decode_notification(object: Object) -> (outcome: Result<JsonRpcNotification, Error>)
    ensures
        agrees(outcome, notification_of(object@)),
{
    proof {
        reveal_strlit("jsonrpc");
        reveal_strlit("method");
        assert("jsonrpc"@.len() != "method"@.len());
    }
    let mut members = object;
    let jsonrpc = match decode_optional_text(members.take("jsonrpc")) {
        Ok(found) => found,
        Err(error) => return Err(error),
    };
    let method = match decode_optional_text(members.take("method")) {
        Ok(found) => found,
        Err(error) => return Err(error),
    };
    let jsonrpc = match jsonrpc {
        Some(found) => found,
        None => return Err(missing_field("jsonrpc")),
    };
    let method = match method {
        Some(found) => found,
        None => return Err(missing_field("method")),
    };
    Ok(JsonRpcNotification { jsonrpc, method })
}

/// Reads a text that has to be there, and a value that may follow it.
fn decode_leading_text(
    params: Json,
    first: &'static str,
    second: Option<&'static str>,
    label: &str,
    counted: &str,
) -> (outcome: Result<(String, Json), Error>)
    requires
        second matches Some(name) ==> name@ != first@,
        !ends_in_digit(label@),
        !ends_in_digit(counted@),
    ensures
        ({
            let expected = leading_text(
                params@,
                first@,
                match second {
                    Some(name) => Some(name@),
                    None => None,
                },
                label@,
                counted@,
            );
            match outcome {
                Ok((s, value)) => expected == Ok::<(Seq<char>, JsonView), Seq<char>>((s@, value@)),
                Err(error) => expected == Err::<(Seq<char>, JsonView), Seq<char>>(
                    error_message(error),
                ),
            }
        }),
{
    match params {
        Json::Object(object) => {
            let mut members = object;
            let s = match decode_optional_text(members.take(first)) {
                Ok(Some(found)) => found,
                Ok(None) => return Err(missing_field(first)),
                Err(error) => return Err(error),
            };
            let value = match second {
                Some(name) => value_or_null(members.take(name)),
                None => Json::Null,
            };
            Ok((s, value))
        },
        Json::Array(items) => {
            let mut rest = items;
            let length: usize = rest.len();
            let s = match decode_optional_text(take_first(&mut rest)) {
                Ok(Some(found)) => found,
                Ok(None) => return Err(invalid_length(0, counted)),
                Err(error) => return Err(error),
            };
            if length > 2 || (second.is_none() && length > 1) {
                proof {
                    reveal_strlit("fewer elements in array");
                }
                return Err(invalid_length(length, FEWER_ELEMENTS));
            }
            let value = value_or_null(take_first(&mut rest));
            Ok((s, value))
        },
        other => Err(invalid_type(&other, label)),
    }
}

/// Reads the parameters of `tools/call`.
pub fn decode_tool_call_params(params: Json) -> (outcome: Result<ToolCallParams, Error>)
    ensures
        agrees(outcome, tool_call_params(params@)),
{
    proof {
        reveal_strlit("name");
        reveal_strlit("arguments");
        reveal_strlit("struct ToolCallParams");
        reveal_strlit("struct ToolCallParams with 2 elements");
        assert("name"@.len() != "arguments"@.len());
    }
    match decode_leading_text(
        params,
        "name",
        Some("arguments"),
        "struct ToolCallParams",
        "struct ToolCallParams with 2 elements",
    ) {
        Ok((name, arguments)) => Ok(ToolCallParams { name, arguments }),
        Err(error) => Err(error),
    }
}

/// Reads the parameters of `prompts/get`.
pub fn decode_prompt_get_params(params: Json) -> (outcome: Result<PromptGetParams, Error>)
    ensures
        agrees(outcome, prompt_get_params(params@)),
{
    proof {
        reveal_strlit("name");
        reveal_strlit("arguments");
        reveal_strlit("struct PromptGetParams");
        reveal_strlit("struct PromptGetParams with 2 elements");
        assert("name"@.len() != "arguments"@.len());
    }
    match decode_leading_text(
        params,
        "name",
        Some("arguments"),
        "struct PromptGetParams",
        "struct PromptGetParams with 2 elements",
    ) {
        Ok((name, arguments)) => Ok(PromptGetParams { name, arguments }),
        Err(error) => Err(error),
    }
}

/// Reads the parameter of `resources/read`.
pub fn decode_resource_read_params(params: Json) -> (outcome: Result<ResourceReadParams, Error>)
    ensures
        agrees(outcome, resource_read_params(params@)),
{
    proof {
        reveal_strlit("struct ResourceReadParams");
        reveal_strlit("struct ResourceReadParams with 1 element");
    }
    match decode_leading_text(
        params,
        "uri",
        None,
        "struct ResourceReadParams",
        "struct ResourceReadParams with 1 element",
    ) {
        Ok((uri, _)) => Ok(ResourceReadParams { uri }),
        Err(error) => Err(error),
    }
}

/// Reads the parameter of `logging/setLevel`.
pub fn decode_logging_set_level_params(params: Json) -> (outcome: Result<
    LoggingSetLevelParams,
    Error,
>)
    ensures
        agrees(outcome, logging_set_level_params(params@)),
{
    proof {
        reveal_strlit("struct LoggingSetLevelParams");
        reveal_strlit("struct LoggingSetLevelParams with 1 element");
    }
    match decode_leading_text(
        params,
        "level",
        None,
        "struct LoggingSetLevelParams",
        "struct LoggingSetLevelParams with 1 element",
    ) {
        Ok((level, _)) => Ok(LoggingSetLevelParams { level }),
        Err(error) => Err(error),
    }
}

/// Reads the parameters of `completion/complete`.
pub fn decode_completion_params(params: Json) -> (outcome: Result<CompletionCompleteParams, Error>)
    ensures
        agrees(outcome, completion_params(params@)),
{
    match params {
        Json::Object(object) => {
            proof {
                reveal_strlit("ref");
                reveal_strlit("argument");
                assert("ref"@.len() != "argument"@.len());
            }
            let mut members = object;
            let argument = value_or_null(members.take("argument"));
            let reference = value_or_null(members.take("ref"));
            Ok(CompletionCompleteParams { reference, argument })
        },
        Json::Array(items) => {
            let mut rest = items;
            let length: usize = rest.len();
            if length > 2 {
                proof {
                    reveal_strlit("fewer elements in array");
                }
                return Err(invalid_length(length, FEWER_ELEMENTS));
            }
            let reference = value_or_null(take_first(&mut rest));
            let argument = value_or_null(take_first(&mut rest));
            Ok(CompletionCompleteParams { reference, argument })
        },
        other => {
            proof {
                reveal_strlit("struct CompletionCompleteParams");
            }
            Err(invalid_type(&other, "struct CompletionCompleteParams"))
        },
    }
}

/// Reads name and version of an implementation.
pub fn decode_implementation_info(json: Json) -> (outcome: Result<ImplementationInfo, Error>)
    ensures
        agrees(outcome, implementation_info(json@)),
{
    proof {
        reveal_strlit("name");
        reveal_strlit("version");
        reveal_strlit("fewer elements in array");
        reveal_strlit("struct ImplementationInfo");
        reveal_strlit("struct ImplementationInfo with 2 elements");
        assert("name"@.len() != "version"@.len());
    }
    match json {
        Json::Object(object) => {
            let mut members = object;
            let name = match decode_optional_text(members.take("name")) {
                Ok(found) => found,
                Err(error) => return Err(error),
            };
            let version = match decode_optional_text(members.take("version")) {
                Ok(found) => found,
                Err(error) => return Err(error),
            };
            let name = match name {
                Some(found) => found,
                None => return Err(missing_field("name")),
            };
            let version = match version {
                Some(found) => found,
                None => return Err(missing_field("version")),
            };
            Ok(ImplementationInfo { name, version })
        },
        Json::Array(items) => {
            let mut rest = items;
            let length: usize = rest.len();
            let counted = "struct ImplementationInfo with 2 elements";
            let name = match decode_optional_text(take_first(&mut rest)) {
                Ok(Some(found)) => found,
                Ok(None) => return Err(invalid_length(0, counted)),
                Err(error) => return Err(error),
            };
            let version = match decode_optional_text(take_first(&mut rest)) {
                Ok(Some(found)) => found,
                Ok(None) => return Err(invalid_length(1, counted)),
                Err(error) => return Err(error),
            };
            if length > 2 {
                return Err(invalid_length(length, FEWER_ELEMENTS));
            }
            Ok(ImplementationInfo { name, version })
        },
        other => Err(invalid_type(&other, "struct ImplementationInfo")),
    }
}

/// Reads name and version of an implementation, where there is a value and it
/// is not `null`.
fn decode_optional_info(json: Option<Json>) -> (outcome: Result<Option<ImplementationInfo>, Error>)
    ensures
        match outcome {
            Ok(info) => optional_info_of(optional_view(json)) == Ok::<
                Option<InfoView>,
                Seq<char>,
            >(optional_info_view(info)),
            Err(error) => optional_info_of(optional_view(json)) == Err::<
                Option<InfoView>,
                Seq<char>,
            >(error_message(error)),
        },
{
    match value_or_null(json) {
        Json::Null => Ok(None),
        value => match decode_implementation_info(value) {
            Ok(info) => Ok(Some(info)),
            Err(error) => Err(error),
        },
    }
}

/// Reads the parameters of `initialize`.
pub fn decode_initialize_params(params: Json) -> (outcome: Result<InitializeParams, Error>)
    ensures
        agrees(outcome, initialize_params(params@)),
{
    proof {
        reveal_strlit("capabilities");
        reveal_strlit("clientInfo");
        reveal_strlit("protocolVersion");
        reveal_strlit("fewer elements in array");
        reveal_strlit("struct InitializeParams");
        reveal_strlit("struct InitializeParams with 3 elements");
        assert("capabilities"@.len() == 12 && "clientInfo"@.len() == 10 && "protocolVersion"@.len()
            == 15);
    }
    match params {
        Json::Object(object) => {
            let mut members = object;
            let capabilities = value_or_null(members.take("capabilities"));
            let client_info = match decode_optional_info(members.take("clientInfo")) {
                Ok(found) => found,
                Err(error) => return Err(error),
            };
            let protocol_version = match decode_optional_text(members.take("protocolVersion")) {
                Ok(Some(found)) => found,
                Ok(None) => return Err(missing_field("protocolVersion")),
                Err(error) => return Err(error),
            };
            Ok(InitializeParams { protocol_version, capabilities, client_info })
        },
        Json::Array(items) => {
            let mut rest = items;
            let length: usize = rest.len();
            let protocol_version = match decode_optional_text(take_first(&mut rest)) {
                Ok(Some(found)) => found,
                Ok(None) => return Err(
                    invalid_length(0, "struct InitializeParams with 3 elements"),
                ),
                Err(error) => return Err(error),
            };
            let capabilities = value_or_null(take_first(&mut rest));
            let client_info = match decode_optional_info(take_first(&mut rest)) {
                Ok(found) => found,
                Err(error) => return Err(error),
            };
            if length > 3 {
                return Err(invalid_length(length, FEWER_ELEMENTS));
            }
            Ok(InitializeParams { protocol_version, capabilities, client_info })
        },
        other => Err(invalid_type(&other, "struct InitializeParams")),
    }
}

} // verus!
