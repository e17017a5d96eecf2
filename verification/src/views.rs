//! What the values of the library show of themselves: each field as it is.
use vstd::prelude::*;

use crate::decode::{
    optional_info_view, CompletionCompleteParams, ImplementationInfo, InitializeParams,
    LoggingSetLevelParams, PromptGetParams, ResourceReadParams, ToolCallParams,
};
use crate::json::{Json, JsonView, Object};
use crate::message::{JsonRpcError, JsonRpcNotification, JsonRpcRequest, RequestId, RequestIdView};
use crate::session::SessionState;

verus! {

/// A session shows its stage, its client, the capabilities and the level.
pub proof fn session_shows_its_fields(state: SessionState)
    ensures
        state@.init_state == state.init_state,
        state@.client_info is None <==> state.client_info is None,
        state.client_info matches Some(info) ==> state@.client_info == Some(info@),
        state@.client_capabilities == state.client_capabilities@,
        state@.log_level == state.log_level@,
{
}

/// A client shows its name and its version.
pub proof fn implementation_shows_its_fields(
    info: ImplementationInfo,
    optional: Option<ImplementationInfo>,
)
    ensures
        info@.name == info.name@,
        info@.version == info.version@,
        optional_info_view(optional) is None <==> optional is None,
        optional matches Some(known) ==> optional_info_view(optional) == Some(known@),
{
}

/// Messages and errors show what they carry.
pub proof fn messages_show_their_fields(
    request: JsonRpcRequest,
    notification: JsonRpcNotification,
    error: JsonRpcError,
    id: RequestId,
)
    ensures
        request@.jsonrpc == request.jsonrpc@,
        request@.id == request.id@,
        request@.method == request.method@,
        request@.params == request.params@,
        notification@.jsonrpc == notification.jsonrpc@,
        notification@.method == notification.method@,
        error@.code == error.code,
        error@.message == error.message@,
        error@.data is None <==> error.data is None,
        error.data matches Some(data) ==> error@.data == Some(data@),
        match id {
            RequestId::Integer(n) => id@ == RequestIdView::Integer(n as int),
            RequestId::String(s) => id@ == RequestIdView::String(s@),
            RequestId::Null => id@ == RequestIdView::Null,
        },
{
}

/// Parameters show what they were given, each in its place.
pub proof fn parameters_show_their_fields(
    beginning: InitializeParams,
    tool: ToolCallParams,
    prompt: PromptGetParams,
    resource: ResourceReadParams,
    level: LoggingSetLevelParams,
    completion: CompletionCompleteParams,
)
    ensures
        beginning@.protocol_version == beginning.protocol_version@,
        beginning@.capabilities == beginning.capabilities@,
        beginning@.client_info == optional_info_view(beginning.client_info),
        tool@.0 == tool.name@,
        tool@.1 == tool.arguments@,
        prompt@.0 == prompt.name@,
        prompt@.1 == prompt.arguments@,
        resource@ == resource.uri@,
        level@ == level.level@,
        completion@.0 == completion.reference@,
        completion@.1 == completion.argument@,
{
}

/// A JSON value shows what it holds. Whole numbers are one kind, whatever holds
/// them.
pub proof fn json_shows_what_it_holds(json: Json)
    ensures
        match json {
            Json::Null => json@ == JsonView::Null,
            Json::Bool(b) => json@ == JsonView::Bool(b),
            Json::Unsigned(n) => json@ == JsonView::Integer(n as int),
            Json::Signed(n) => json@ == JsonView::Integer(n as int),
            Json::Fraction(fraction) => json@ == JsonView::Fraction(fraction.numeral()),
            Json::String(s) => json@ == JsonView::String(s@),
            Json::Array(items) => {
                &&& json@ is Array
                &&& json@->Array_0.len() == items@.len()
                &&& forall|i: int|
                    0 <= i < items@.len() ==> #[trigger] json@->Array_0[i] == items@[i]@
            },
            Json::Object(object) => json@ == JsonView::Object(object@),
        },
{
}

/// A list of members shows nothing when it is empty. One member more counts in
/// place of those before it with the same name, and leaves the others alone.
pub proof fn later_members_count(object: Object, longer: Object, name: String, value: Json)
    requires
        longer.members@ == object.members@.push((name, value)),
    ensures
        object.members@.len() == 0 ==> object@ == Map::<Seq<char>, JsonView>::empty(),
        longer@ == object@.insert(name@, value@),
{
    assert(longer.members@.drop_last() =~= object.members@);
}

} // verus!
