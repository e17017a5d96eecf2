//! What holds of the server whatever it is sent.
use vstd::prelude::*;

use crate::decode::{
    initialize_params, leading_text, logging_set_level_params, notification_of, request_of,
};
use crate::json::JsonView;
use crate::message::{
    failure, success, NotificationView, RequestIdView, RequestView, INVALID_REQUEST,
    JSONRPC_VERSION, METHOD_NOT_FOUND, SERVER_NOT_READY,
};
use crate::protocol::{
    after_batch, after_message, after_request, after_single, answer, begins,
    details, initialize_result, invalid_request, is_notification, is_request, just, method_answer,
    nothing, outcome, refusal, replies, reply, set_level_differs,
};
use crate::session::{InitState, SessionView};
use crate::value::{is_plain, reads_back};

verus! {

/// Whether a value is a response: it says which version of JSON-RPC it belongs
/// to, carries an id, and carries either a result or an error, and nothing more.
pub open spec fn is_response(json: JsonView) -> bool {
    &&& json is Object
    &&& json->Object_0.dom() == set!["jsonrpc"@, "id"@, "result"@] || is_refusal(json)
    &&& json.member("jsonrpc"@) == Some(JsonView::String(JSONRPC_VERSION@))
}

/// Whether a response carries an error: a code, a message, and data.
pub open spec fn is_refusal(json: JsonView) -> bool {
    &&& json is Object
    &&& json->Object_0.dom() == set!["jsonrpc"@, "id"@, "error"@]
    &&& json->Object_0["error"@] matches JsonView::Object(error)
    &&& error.dom() == set!["code"@, "message"@, "data"@]
    &&& error["code"@] is Integer
    &&& error["message"@] is String
}

/// Whether a response carries an error of the given code.
pub open spec fn carries_code(json: JsonView, code: int) -> bool {
    json.member("error"@) matches Some(error) && error.member("code"@) == Some(
        JsonView::Integer(code),
    )
}

proof fn response_names_differ()
    ensures
        "jsonrpc"@ != "id"@,
        "jsonrpc"@ != "result"@,
        "jsonrpc"@ != "error"@,
        "id"@ != "result"@,
        "id"@ != "error"@,
        "result"@ != "error"@,
        "code"@ != "message"@,
        "code"@ != "data"@,
        "message"@ != "data"@,
{
    reveal_strlit("jsonrpc");
    reveal_strlit("id");
    reveal_strlit("result");
    reveal_strlit("error");
    reveal_strlit("code");
    reveal_strlit("message");
    reveal_strlit("data");
    assert("jsonrpc"@.len() == 7 && "id"@.len() == 2 && "result"@.len() == 6 && "error"@.len()
        == 5);
    assert("code"@.len() == 4 && "message"@.len() == 7 && "data"@.len() == 4);
    assert("code"@[0] == 'c' && "data"@[0] == 'd');
}

/// A success is a response, carries its id and its result, and is no refusal.
pub proof fn success_is_response(id: RequestIdView, result: JsonView)
    ensures
        is_response(success(id, result)),
        !is_refusal(success(id, result)),
        success(id, result).member("id"@) == Some(id.json()),
        success(id, result).member("result"@) == Some(result),
        success(id, result).member("error"@) is None,
{
    response_names_differ();
    let members = success(id, result)->Object_0;
    assert(members.dom() =~= set!["jsonrpc"@, "id"@, "result"@]);
    assert(members.dom().contains("result"@));
    assert(!set!["jsonrpc"@, "id"@, "error"@].contains("result"@));
}

/// A failure is a response and a refusal, and carries its id and its error.
pub proof fn failure_is_response(
    id: RequestIdView,
    code: int,
    message: Seq<char>,
    data: Option<JsonView>,
)
    ensures
        is_response(failure(id, code, message, data)),
        is_refusal(failure(id, code, message, data)),
        failure(id, code, message, data).member("id"@) == Some(id.json()),
        failure(id, code, message, data).member("result"@) is None,
        failure(id, code, message, data).member("error"@) matches Some(error) && error.member(
            "code"@,
        ) == Some(JsonView::Integer(code)) && error.member("message"@) == Some(
            JsonView::String(message),
        ) && error.member("data"@) == Some(
            match data {
                Some(value) => value,
                None => JsonView::Null,
            },
        ),
{
    response_names_differ();
    let members = failure(id, code, message, data)->Object_0;
    assert(members.dom() =~= set!["jsonrpc"@, "id"@, "error"@]);
    let error = members["error"@]->Object_0;
    assert(error.dom() =~= set!["code"@, "message"@, "data"@]);
}

proof fn answer_is_response(request: RequestView, session: SessionView)
    ensures
        is_response(answer(request, session)),
        answer(request, session).member("id"@) == Some(request.id.json()),
        is_refusal(answer(request, session)) ==> after_request(request, session) == session,
{
    set_level_differs();
    assert forall|result: JsonView| true implies is_response(
        #[trigger] success(request.id, result),
    ) && !is_refusal(success(request.id, result)) && success(request.id, result).member("id"@)
        == Some(request.id.json()) by {
        success_is_response(request.id, result);
    }
    assert forall|code: int, message: Seq<char>, data: Option<JsonView>| true implies is_response(
        #[trigger] failure(request.id, code, message, data),
    ) && failure(request.id, code, message, data).member("id"@) == Some(request.id.json()) by {
        failure_is_response(request.id, code, message, data);
    }
}

/// Whatever is sent back for a single message is a response.
pub proof fn every_reply_is_response(message: JsonView, session: SessionView)
    ensures
        reply(message, session) matches Some(response) ==> is_response(response),
{
    failure_is_response(RequestIdView::Null, INVALID_REQUEST as int, "Invalid Request"@, None);
    if is_request(message) {
        match request_of(message->Object_0) {
            Ok(request) => answer_is_response(request, session),
            Err(why) => failure_is_response(
                RequestIdView::Null,
                INVALID_REQUEST as int,
                "Invalid Request"@,
                details(why),
            ),
        }
    }
}

/// A message with a method and an id always gets a response. It carries the id
/// of the message where the message can be read as a request, and `null` where
/// it cannot.
pub proof fn every_request_is_answered(message: JsonView, session: SessionView)
    requires
        is_request(message),
    ensures
        reply(message, session) matches Some(response) && response.member("id"@) == (
        if request_of(message->Object_0) is Ok {
            message.member("id"@)
        } else {
            Some(JsonView::Null)
        }),
{
    match request_of(message->Object_0) {
        Ok(request) => answer_is_response(request, session),
        Err(why) => failure_is_response(
            RequestIdView::Null,
            INVALID_REQUEST as int,
            "Invalid Request"@,
            details(why),
        ),
    }
}

/// A message with a method and without an id never gets a response, whatever
/// else it holds.
pub proof fn no_notification_is_answered(message: JsonView, session: SessionView)
    requires
        is_notification(message),
    ensures
        reply(message, session) is None,
        outcome(message, session) is None,
{
}

/// A message that is refused changes nothing.
pub proof fn refusal_changes_nothing(message: JsonView, session: SessionView)
    requires
        reply(message, session) matches Some(response) && is_refusal(response),
    ensures
        after_single(message, session) == session,
{
    if is_request(message) {
        match request_of(message->Object_0) {
            Ok(request) => answer_is_response(request, session),
            Err(_) => {},
        }
    }
}

/// How far a session has come, as a number.
pub open spec fn stage(init_state: InitState) -> int {
    match init_state {
        InitState::Uninitialized => 0,
        InitState::Initializing => 1,
        InitState::Initialized => 2,
    }
}

/// A session goes on in two steps and never back: a request to begin takes it
/// from the first stage to the second, the confirmation from there to the third,
/// and no other message takes it anywhere.
pub proof fn session_goes_on_step_by_step(message: JsonView, session: SessionView)
    ensures
        ({
            let after = after_single(message, session);
            ||| after.init_state == session.init_state
            ||| {
                &&& session.init_state == InitState::Uninitialized
                &&& after.init_state == InitState::Initializing
                &&& is_request(message)
                &&& request_of(message->Object_0) matches Ok(request)
                &&& request.jsonrpc == JSONRPC_VERSION@
                &&& request.method == "initialize"@
                &&& begins(request.params, session.init_state)
            }
            ||| {
                &&& session.init_state == InitState::Initializing
                &&& after.init_state == InitState::Initialized
                &&& is_notification(message)
                &&& notification_of(message->Object_0) matches Ok(notification)
                &&& notification.jsonrpc == JSONRPC_VERSION@
                &&& notification.method == "notifications/initialized"@
            }
        }),
{
}

proof fn batch_never_goes_back(messages: Seq<JsonView>, session: SessionView)
    ensures
        stage(after_batch(messages, session).init_state) >= stage(session.init_state),
        session.init_state != InitState::Uninitialized ==> after_batch(
            messages,
            session,
        ).client_info == session.client_info && after_batch(messages, session).client_capabilities
            == session.client_capabilities,
    decreases messages.len(),
{
    if messages.len() > 0 {
        batch_never_goes_back(messages.drop_last(), session);
    }
}

/// No message or batch takes a session back to an earlier stage.
pub proof fn session_never_goes_back(message: JsonView, session: SessionView)
    ensures
        stage(after_message(message, session).init_state) >= stage(session.init_state),
{
    if message is Array {
        batch_never_goes_back(message->Array_0, session);
    }
}

/// What a client has said of itself when the session began stays.
pub proof fn client_stays_known(message: JsonView, session: SessionView)
    requires
        session.init_state != InitState::Uninitialized,
    ensures
        after_message(message, session).client_info == session.client_info,
        after_message(message, session).client_capabilities == session.client_capabilities,
{
    if message is Array {
        batch_never_goes_back(message->Array_0, session);
    }
}

/// A notification changes at most how far the session has come.
pub proof fn notification_changes_stage_alone(message: JsonView, session: SessionView)
    requires
        is_notification(message),
    ensures
        after_single(message, session) == (SessionView {
            init_state: after_single(message, session).init_state,
            ..session
        }),
{
}

/// Whether a session holds no more than it can have learned so far: nothing
/// before it begins, and no level of logging before it is confirmed.
pub open spec fn knows_no_more(session: SessionView) -> bool {
    match session.init_state {
        InitState::Uninitialized => session == SessionView::fresh(),
        InitState::Initializing => session.log_level == Seq::<char>::empty(),
        InitState::Initialized => true,
    }
}

proof fn batch_teaches_no_more(messages: Seq<JsonView>, session: SessionView)
    requires
        knows_no_more(session),
    ensures
        knows_no_more(after_batch(messages, session)),
    decreases messages.len(),
{
    set_level_differs();
    if messages.len() > 0 {
        batch_teaches_no_more(messages.drop_last(), session);
    }
}

/// A fresh session holds no more than it can have learned, and no message or
/// batch changes that.
pub proof fn session_knows_no_more_than_it_was_told(message: JsonView, session: SessionView)
    requires
        knows_no_more(session),
    ensures
        knows_no_more(SessionView::fresh()),
        knows_no_more(after_message(message, session)),
{
    set_level_differs();
    if message is Array {
        batch_teaches_no_more(message->Array_0, session);
    }
}

/// Whether a message can be read as a request, and which.
pub open spec fn reads_as(message: JsonView, request: RequestView) -> bool {
    is_request(message) && request_of(message->Object_0) == Ok::<RequestView, Seq<char>>(request)
}

/// A message that can be read as a request is answered as that request, alone or
/// as the only one of a batch.
pub proof fn request_is_answered_as_read(
    message: JsonView,
    request: RequestView,
    session: SessionView,
)
    requires
        reads_as(message, request),
    ensures
        outcome(message, session) == Some(answer(request, session)),
        after_message(message, session) == after_request(request, session),
        outcome(JsonView::Array(seq![message]), session) == Some(
            JsonView::Array(seq![answer(request, session)]),
        ),
        message.member("id"@) == Some(request.id.json()),
{
    batch_of_one(message, session);
}

/// Until a session has been confirmed, every request but `initialize` and `ping`
/// is refused as coming too early, and changes nothing.
pub proof fn too_early_is_refused(message: JsonView, request: RequestView, session: SessionView)
    requires
        reads_as(message, request),
        request.jsonrpc == JSONRPC_VERSION@,
        request.method != "initialize"@,
        request.method != "ping"@,
        session.init_state != InitState::Initialized,
    ensures
        outcome(message, session) matches Some(response) && response.member("id"@)
            == message.member("id"@) && carries_code(response, SERVER_NOT_READY as int),
        after_message(message, session) == session,
{
    failure_is_response(
        request.id,
        SERVER_NOT_READY as int,
        refusal(session.init_state, request.method)->0,
        None,
    );
}

/// After a request to begin has been accepted and the client has confirmed,
/// the server knows what the client said of itself, and no method is refused as
/// coming too early any more.
pub proof fn handshake_opens_session(
    beginning: JsonView,
    request: RequestView,
    confirmation: JsonView,
    notification: NotificationView,
    session: SessionView,
)
    requires
        reads_as(beginning, request),
        request.jsonrpc == JSONRPC_VERSION@,
        request.method == "initialize"@,
        begins(request.params, session.init_state),
        is_notification(confirmation),
        notification_of(confirmation->Object_0) == Ok::<NotificationView, Seq<char>>(notification),
        notification.jsonrpc == JSONRPC_VERSION@,
        notification.method == "notifications/initialized"@,
    ensures
        outcome(beginning, session) == Some(success(request.id, initialize_result())),
        after_message(beginning, session).init_state == InitState::Initializing,
        outcome(confirmation, after_message(beginning, session)) is None,
        ({
            let opened = after_message(confirmation, after_message(beginning, session));
            &&& opened.init_state == InitState::Initialized
            &&& initialize_params(request.params) matches Ok(wanted)
            &&& opened.client_info == wanted.client_info
            &&& opened.client_capabilities == wanted.capabilities
            &&& opened.log_level == session.log_level
            &&& forall|message: JsonView, later: RequestView|
                reads_as(message, later) && later.jsonrpc == JSONRPC_VERSION@ ==> #[trigger] outcome(
                    message,
                    opened,
                ) == Some(#[trigger] method_answer(
                    later.id,
                    later.method,
                    later.params,
                    InitState::Initialized,
                ))
        }),
{
}

/// A session begins once: after that, every request to begin is refused and
/// changes nothing.
pub proof fn session_begins_once(request: RequestView, session: SessionView)
    requires
        request.jsonrpc == JSONRPC_VERSION@,
        request.method == "initialize"@,
        session.init_state != InitState::Uninitialized,
    ensures
        carries_code(answer(request, session), INVALID_REQUEST as int),
        after_request(request, session) == session,
{
    failure_is_response(
        request.id,
        INVALID_REQUEST as int,
        "Initialize can only be called once per session"@,
        None,
    );
}

/// A ping is answered at every stage, with an empty result, and changes nothing.
pub proof fn ping_is_always_answered(request: RequestView, session: SessionView)
    requires
        request.jsonrpc == JSONRPC_VERSION@,
        request.method == "ping"@,
    ensures
        answer(request, session) == success(request.id, nothing()),
        after_request(request, session) == session,
{
    reveal_strlit("ping");
    reveal_strlit("initialize");
    set_level_differs();
    assert("ping"@.len() != "initialize"@.len());
}

/// The methods that the server knows.
pub open spec fn is_known_method(method: Seq<char>) -> bool {
    ||| method == "initialize"@
    ||| method == "ping"@
    ||| method == "tools/list"@
    ||| method == "tools/call"@
    ||| method == "resources/list"@
    ||| method == "resources/templates/list"@
    ||| method == "resources/read"@
    ||| method == "prompts/list"@
    ||| method == "prompts/get"@
    ||| method == "completion/complete"@
    ||| method == "logging/setLevel"@
}

/// In an open session, a method that the server does not know is not found, and
/// changes nothing.
pub proof fn unknown_method_is_not_found(request: RequestView, session: SessionView)
    requires
        request.jsonrpc == JSONRPC_VERSION@,
        !is_known_method(request.method),
        session.init_state == InitState::Initialized,
    ensures
        carries_code(answer(request, session), METHOD_NOT_FOUND as int),
        after_request(request, session) == session,
{
    failure_is_response(request.id, METHOD_NOT_FOUND as int, "Method not found"@, None);
}

/// The level of logging changes with `logging/setLevel` alone, in an open
/// session, and is then the level that was asked for.
pub proof fn log_level_is_as_asked(request: RequestView, session: SessionView)
    ensures
        ({
            let after = after_request(request, session);
            if request.jsonrpc == JSONRPC_VERSION@ && request.method == "logging/setLevel"@
                && session.init_state == InitState::Initialized && logging_set_level_params(
                request.params,
            ) is Ok {
                &&& after.log_level == logging_set_level_params(request.params)->Ok_0
                &&& answer(request, session) == success(request.id, nothing())
            } else {
                after.log_level == session.log_level
            }
        }),
{
    set_level_differs();
}

/// A batch leaves the session as its messages sent one after the other do, and
/// gets the same responses: what is sent in one batch can be sent in two.
pub proof fn batch_is_message_after_message(
    first: Seq<JsonView>,
    second: Seq<JsonView>,
    session: SessionView,
)
    ensures
        after_batch(first + second, session) == after_batch(second, after_batch(first, session)),
        replies(first + second, session) == replies(first, session) + replies(
            second,
            after_batch(first, session),
        ),
    decreases second.len(),
{
    if second.len() == 0 {
        assert(first + second =~= first);
    } else {
        batch_is_message_after_message(first, second.drop_last(), session);
        assert((first + second).drop_last() =~= first + second.drop_last());
        assert((first + second).last() == second.last());
    }
}

/// A batch of one message gets what the message alone gets, in a list.
pub proof fn batch_of_one(message: JsonView, session: SessionView)
    ensures
        after_batch(seq![message], session) == after_single(message, session),
        outcome(JsonView::Array(seq![message]), session) == match reply(message, session) {
            Some(response) => Some(JsonView::Array(seq![response])),
            None => None,
        },
{
    reveal_with_fuel(after_batch, 2);
    reveal_with_fuel(replies, 2);
    assert(seq![message].drop_last() =~= Seq::empty());
    if let Some(response) = reply(message, session) {
        assert(replies(seq![message], session) =~= seq![response]);
    }
}

/// A batch gets as many responses as it has messages that are no notifications.
pub proof fn batch_responses_are_counted(messages: Seq<JsonView>, session: SessionView)
    ensures
        replies(messages, session).len() == messages.filter(
            |message: JsonView| !is_notification(message),
        ).len(),
    decreases messages.len(),
{
    reveal(Seq::filter);
    if messages.len() > 0 {
        batch_responses_are_counted(messages.drop_last(), session);
    }
}

/// Nothing is sent back for a batch of notifications, an empty batch is an
/// invalid request, and any other batch gets a list of responses.
pub proof fn batch_outcome(messages: Seq<JsonView>, session: SessionView)
    ensures
        ({
            let sent = outcome(JsonView::Array(messages), session);
            if messages.len() == 0 {
                sent == Some(invalid_request()) && is_response(invalid_request())
            } else if forall|i: int|
                0 <= i < messages.len() ==> is_notification(#[trigger] messages[i]) {
                sent is None
            } else {
                &&& sent matches Some(JsonView::Array(responses))
                &&& forall|i: int|
                    0 <= i < responses.len() ==> is_response(#[trigger] responses[i])
            }
        }),
{
    failure_is_response(RequestIdView::Null, INVALID_REQUEST as int, "Invalid Request"@, None);
    silent_batch(messages, session);
    replies_are_responses(messages, session);
}

proof fn silent_batch(messages: Seq<JsonView>, session: SessionView)
    ensures
        replies(messages, session).len() == 0 <==> forall|i: int|
            0 <= i < messages.len() ==> is_notification(#[trigger] messages[i]),
    decreases messages.len(),
{
    if messages.len() > 0 {
        let rest = messages.drop_last();
        silent_batch(rest, session);
        assert(forall|i: int| 0 <= i < rest.len() ==> rest[i] == #[trigger] messages[i]);
        assert(messages.last() == messages[messages.len() - 1]);
    }
}

proof fn replies_are_responses(messages: Seq<JsonView>, session: SessionView)
    ensures
        forall|i: int|
            0 <= i < replies(messages, session).len() ==> is_response(
                #[trigger] replies(messages, session)[i],
            ),
    decreases messages.len(),
{
    if messages.len() > 0 {
        replies_are_responses(messages.drop_last(), session);
        every_reply_is_response(
            messages.last(),
            after_batch(messages.drop_last(), session),
        );
        let before = replies(messages.drop_last(), session);
        assert forall|i: int| 0 <= i < replies(messages, session).len() implies is_response(
            #[trigger] replies(messages, session)[i],
        ) by {
            if i < before.len() {
                assert(replies(messages, session)[i] == before[i]);
            }
        }
    }
}

proof fn plain_at_greater_depth(json: JsonView, depth: nat, greater: nat)
    requires
        is_plain(json, depth),
        depth <= greater,
    ensures
        is_plain(json, greater),
    decreases depth,
{
    match json {
        JsonView::Array(items) => {
            assert forall|i: int| 0 <= i < items.len() implies is_plain(
                #[trigger] items[i],
                (greater - 1) as nat,
            ) by {
                plain_at_greater_depth(items[i], (depth - 1) as nat, (greater - 1) as nat);
            }
        },
        JsonView::Object(members) => {
            assert forall|name: Seq<char>| members.contains_key(name) implies is_plain(
                #[trigger] members[name],
                (greater - 1) as nat,
            ) by {
                plain_at_greater_depth(members[name], (depth - 1) as nat, (greater - 1) as nat);
            }
        },
        _ => {},
    }
}

proof fn success_is_plain(id: RequestIdView, result: JsonView)
    requires
        is_plain(result, 3),
    ensures
        is_plain(success(id, result), 4),
{
    assert(is_plain(id.json(), 3));
    assert(is_plain(JsonView::String(JSONRPC_VERSION@), 3));
}

/// A failure is plain where its data are.
pub(crate) proof fn failure_is_plain(
    id: RequestIdView,
    code: int,
    message: Seq<char>,
    data: Option<JsonView>,
)
    requires
        data matches Some(value) ==> is_plain(value, 2),
    ensures
        is_plain(failure(id, code, message, data), 4),
        reads_back(failure(id, code, message, data)),
{
    let response = failure(id, code, message, data);
    let error = response->Object_0["error"@];
    assert(is_plain(error, 3)) by {
        if let Some(value) = data {
            assert(is_plain(value, 2));
        }
        assert(is_plain(JsonView::Null, 2));
        assert(is_plain(JsonView::Integer(code), 2));
        assert(is_plain(JsonView::String(message), 2));
    }
    assert(is_plain(id.json(), 3));
    assert(is_plain(JsonView::String(JSONRPC_VERSION@), 3));
    plain_at_greater_depth(response, 4, 127);
}

proof fn initialize_result_is_plain()
    ensures
        is_plain(initialize_result(), 3),
{
    reveal_with_fuel(is_plain, 4);
}

proof fn answer_is_plain(request: RequestView, session: SessionView)
    ensures
        is_plain(answer(request, session), 4),
{
    reveal_with_fuel(is_plain, 4);
    initialize_result_is_plain();
    assert forall|result: JsonView| is_plain(result, 3) implies is_plain(
        #[trigger] success(request.id, result),
        4,
    ) by {
        success_is_plain(request.id, result);
    }
    assert forall|code: int, message: Seq<char>, data: Option<JsonView>|
        (data matches Some(value) ==> is_plain(value, 2)) implies is_plain(
        #[trigger] failure(request.id, code, message, data),
        4,
    ) by {
        failure_is_plain(request.id, code, message, data);
    }
}

proof fn reply_is_plain(message: JsonView, session: SessionView)
    ensures
        reply(message, session) matches Some(response) ==> is_plain(response, 4),
{
    reveal_with_fuel(is_plain, 3);
    failure_is_plain(RequestIdView::Null, INVALID_REQUEST as int, "Invalid Request"@, None);
    if is_request(message) {
        match request_of(message->Object_0) {
            Ok(request) => answer_is_plain(request, session),
            Err(why) => failure_is_plain(
                RequestIdView::Null,
                INVALID_REQUEST as int,
                "Invalid Request"@,
                details(why),
            ),
        }
    }
}

proof fn replies_are_plain(messages: Seq<JsonView>, session: SessionView)
    ensures
        forall|i: int|
            0 <= i < replies(messages, session).len() ==> is_plain(
                #[trigger] replies(messages, session)[i],
                4,
            ),
    decreases messages.len(),
{
    if messages.len() > 0 {
        replies_are_plain(messages.drop_last(), session);
        reply_is_plain(messages.last(), after_batch(messages.drop_last(), session));
        let before = replies(messages.drop_last(), session);
        assert forall|i: int| 0 <= i < replies(messages, session).len() implies is_plain(
            #[trigger] replies(messages, session)[i],
            4,
        ) by {
            if i < before.len() {
                assert(replies(messages, session)[i] == before[i]);
            }
        }
    }
}

/// Whatever is sent back for a message or a batch is plain enough that its text
/// reads as the same value again, however deep the message was.
pub proof fn every_outcome_reads_back(message: JsonView, session: SessionView)
    ensures
        outcome(message, session) matches Some(sent) ==> reads_back(sent),
{
    reply_is_plain(message, session);
    failure_is_plain(RequestIdView::Null, INVALID_REQUEST as int, "Invalid Request"@, None);
    if let Some(sent) = outcome(message, session) {
        if let JsonView::Array(messages) = message {
            replies_are_plain(messages, session);
            if messages.len() > 0 {
                assert(is_plain(sent, 5));
                plain_at_greater_depth(sent, 5, 127);
            }
        } else {
            plain_at_greater_depth(sent, 4, 127);
        }
    }
}

/// A batch inside a batch is no message.
pub proof fn batches_do_not_nest(messages: Seq<JsonView>, session: SessionView)
    ensures
        reply(JsonView::Array(messages), session) == Some(invalid_request()),
        after_single(JsonView::Array(messages), session) == session,
{
}

/// Members of a message that it need not have do not matter.
pub proof fn other_members_do_not_matter(
    members: Map<Seq<char>, JsonView>,
    name: Seq<char>,
    value: JsonView,
    session: SessionView,
)
    requires
        name != "jsonrpc"@,
        name != "id"@,
        name != "method"@,
        name != "params"@,
    ensures
        reply(JsonView::Object(members.insert(name, value)), session) == reply(
            JsonView::Object(members),
            session,
        ),
        after_single(JsonView::Object(members.insert(name, value)), session) == after_single(
            JsonView::Object(members),
            session,
        ),
{
}

/// In an open session there is nothing to be had: the lists of tools, resources,
/// resource templates and prompts are empty, and whichever tool is called,
/// resource read or prompt asked for is refused.
pub proof fn nothing_is_offered(request: RequestView, session: SessionView)
    requires
        request.jsonrpc == JSONRPC_VERSION@,
        session.init_state == InitState::Initialized,
    ensures
        request.method == "tools/list"@ ==> answer(request, session) == success(
            request.id,
            just("tools"@, JsonView::Array(Seq::empty())),
        ),
        request.method == "resources/list"@ ==> answer(request, session) == success(
            request.id,
            just("resources"@, JsonView::Array(Seq::empty())),
        ),
        request.method == "resources/templates/list"@ ==> answer(request, session) == success(
            request.id,
            just("resourceTemplates"@, JsonView::Array(Seq::empty())),
        ),
        request.method == "prompts/list"@ ==> answer(request, session) == success(
            request.id,
            just("prompts"@, JsonView::Array(Seq::empty())),
        ),
        request.method == "tools/call"@ ==> is_refusal(answer(request, session)),
        request.method == "resources/read"@ ==> is_refusal(answer(request, session)),
        request.method == "prompts/get"@ ==> is_refusal(answer(request, session)),
{
    assert forall|code: int, message: Seq<char>, data: Option<JsonView>| true implies is_refusal(
        #[trigger] failure(request.id, code, message, data),
    ) by {
        failure_is_response(request.id, code, message, data);
    }
    reveal_strlit("initialize");
    reveal_strlit("ping");
    reveal_strlit("tools/list");
    reveal_strlit("tools/call");
    reveal_strlit("resources/list");
    reveal_strlit("resources/templates/list");
    reveal_strlit("resources/read");
    reveal_strlit("prompts/list");
    reveal_strlit("prompts/get");
    assert("initialize"@.len() == 10 && "ping"@.len() == 4 && "tools/list"@.len() == 10
        && "tools/call"@.len() == 10);
    assert("resources/list"@.len() == 14 && "resources/templates/list"@.len() == 24
        && "resources/read"@.len() == 14 && "prompts/list"@.len() == 12 && "prompts/get"@.len()
        == 11);
    assert("initialize"@[0] == 'i' && "tools/list"@[0] == 't' && "tools/call"@[0] == 't');
    assert("tools/list"@[6] == 'l' && "tools/call"@[6] == 'c');
    assert("resources/list"@[10] == 'l' && "resources/read"@[10] == 'r');
}

/// Parameters that begin with a text can be given by name or by position.
pub proof fn by_name_or_by_position(
    text: JsonView,
    value: JsonView,
    first: Seq<char>,
    second: Seq<char>,
    label: Seq<char>,
    counted: Seq<char>,
)
    requires
        first != second,
    ensures
        leading_text(
            JsonView::Array(seq![text, value]),
            first,
            Some(second),
            label,
            counted,
        ) == leading_text(
            JsonView::Object(map![first => text, second => value]),
            first,
            Some(second),
            label,
            counted,
        ),
{
}

} // verus!
