//! Serving a client line by line: each line holds one message or one batch, and
//! so does each line that is sent back.
use vstd::prelude::*;

use crate::answers::{error_with, holding};
use crate::json::{Json, JsonView};
use crate::laws::{
    carries_code, client_stays_known, every_outcome_reads_back, failure_is_plain,
    failure_is_response, knows_no_more, session_knows_no_more_than_it_was_told,
    session_never_goes_back, stage,
};
use crate::message::{error_response, failure, optional_view, RequestId, RequestIdView, PARSE_ERROR};
use crate::protocol::{after_message, details, outcome};
use crate::server::{dispatch_message, error_details};
use crate::session::{InitState, SessionState, SessionView};
use crate::text::{
    every_text_can_be_trimmed, is_blank, is_trimmed, is_trimmed_at, trim, trimmed,
    trimmed_is_unique, white_space_is_trimmed_off,
};
use crate::value::{is_plain, json_text, parse_json, parsed, reads_back, render_json};

verus! {

/// What is sent back for what was read in a line.
pub open spec fn reading_outcome(
    reading: Result<JsonView, Seq<char>>,
    session: SessionView,
) -> Option<JsonView> {
    match reading {
        Ok(message) => outcome(message, session),
        Err(why) => Some(
            failure(RequestIdView::Null, PARSE_ERROR as int, "Parse error"@, details(why)),
        ),
    }
}

/// The session after what was read in a line.
pub open spec fn after_reading(
    reading: Result<JsonView, Seq<char>>,
    session: SessionView,
) -> SessionView {
    match reading {
        Ok(message) => after_message(message, session),
        Err(_) => session,
    }
}

/// The line that carries a response.
pub open spec fn carried(response: JsonView) -> Seq<char> {
    json_text(response) + "\n"@
}

/// The line that is sent back for a line. A line of white space gets none.
pub open spec fn line_outcome(line: Seq<char>, session: SessionView) -> Option<Seq<char>> {
    if trimmed(line).len() == 0 {
        None
    } else {
        match reading_outcome(parsed(trimmed(line)), session) {
            Some(response) => Some(carried(response)),
            None => None,
        }
    }
}

/// The session after a line.
pub open spec fn after_line(line: Seq<char>, session: SessionView) -> SessionView {
    if trimmed(line).len() == 0 {
        session
    } else {
        after_reading(parsed(trimmed(line)), session)
    }
}

/// What was read in a line.
pub open spec fn reading_view(reading: Result<Json, String>) -> Result<JsonView, Seq<char>> {
    match reading {
        Ok(message) => Ok(message@),
        Err(why) => Err(why@),
    }
}

/// Answers what was read in a line: a message, or why there is none.
pub fn handle_reading(reading: Result<Json, String>, state: &mut SessionState) -> (response: Option<
    Json,
>)
    ensures
        optional_view(response) == reading_outcome(reading_view(reading), old(state)@),
        final(state)@ == after_reading(reading_view(reading), old(state)@),
{
    match reading {
        Ok(message) => dispatch_message(message, state),
        Err(why) => Some(
            error_response(RequestId::Null, PARSE_ERROR, "Parse error", error_details(why)),
        ),
    }
}

/// Writes a response as the line that carries it. It ends in the only line feed
/// that it has, and a plain response can be read from what is before that.
pub fn response_line(response: Json) -> (line: String)
    ensures
        line@ == carried(response@),
        line@.last() == '\n',
        !line@.drop_last().contains('\n'),
        reads_back(response@) ==> parsed(line@.drop_last()) == Ok::<JsonView, Seq<char>>(response@),
{
    let text = render_json(response);
    let line = text.concat("\n");
    proof {
        reveal_strlit("\n");
        assert(line@.drop_last() =~= text@);
    }
    line
}

/// Answers a line, if anything in it asks for a response. The line that is sent
/// back ends in the only line feed that it has, and reads as the response.
pub fn handle_line(line: &str, state: &mut SessionState) -> (response: Option<String>)
    ensures
        match response {
            Some(text) => line_outcome(line@, old(state)@) == Some(text@),
            None => line_outcome(line@, old(state)@) is None,
        },
        response matches Some(text) ==> text@.last() == '\n' && !text@.drop_last().contains('\n'),
        response matches Some(text) ==> parsed(text@.drop_last()) == Ok::<JsonView, Seq<char>>(
            reading_outcome(parsed(trimmed(line@)), old(state)@)->0,
        ),
        final(state)@ == after_line(line@, old(state)@),
{
    let inner = trim(line);
    proof {
        assert(is_trimmed(line@, inner@));
        trimmed_is_unique(line@, inner@, trimmed(line@));
    }
    if inner.is_empty() {
        return None;
    }
    proof {
        every_reading_outcome_reads_back(parsed(trimmed(line@)), state@);
    }
    match handle_reading(parse_json(inner), state) {
        Some(response) => Some(response_line(response)),
        None => None,
    }
}

/// A line gets the text of what its message gets, and a line feed. A line that is
/// no JSON gets the reason in the same way, without an id. A line that is empty
/// when it is trimmed gets nothing.
pub proof fn line_is_answered_as_its_message(line: Seq<char>, session: SessionView)
    ensures
        trimmed(line).len() == 0 ==> line_outcome(line, session) is None && after_line(
            line,
            session,
        ) == session,
        trimmed(line).len() > 0 ==> match parsed(trimmed(line)) {
            Ok(message) => {
                &&& outcome(message, session) is None ==> line_outcome(line, session) is None
                &&& outcome(message, session) matches Some(response) ==> line_outcome(line, session)
                    == Some(json_text(response).push('\n'))
                &&& after_line(line, session) == after_message(message, session)
            },
            Err(why) => {
                &&& line_outcome(line, session) == Some(
                    json_text(
                        error_with(
                            JsonView::Null,
                            -32700,
                            "Parse error"@,
                            holding("details"@, why),
                        ),
                    ).push('\n'),
                )
                &&& after_line(line, session) == session
            },
        },
{
    reveal_strlit("\n");
    assert forall|text: Seq<char>| #[trigger] (text + "\n"@) == text.push('\n') by {
        assert(text + "\n"@ =~= text.push('\n'));
    }
}

/// What was read in a line is answered as its message, or with the reason why there
/// is none. A response is carried by its text and a line feed.
pub proof fn reading_is_answered_as_its_message(
    reading: Result<Json, String>,
    response: JsonView,
    session: SessionView,
)
    ensures
        match reading {
            Ok(message) => {
                &&& reading_outcome(reading_view(reading), session) == outcome(message@, session)
                &&& after_reading(reading_view(reading), session) == after_message(
                    message@,
                    session,
                )
            },
            Err(why) => {
                &&& reading_outcome(reading_view(reading), session) == Some(
                    error_with(
                        JsonView::Null,
                        -32700,
                        "Parse error"@,
                        holding("details"@, why@),
                    ),
                )
                &&& after_reading(reading_view(reading), session) == session
            },
        },
        carried(response) == json_text(response).push('\n'),
{
    reveal_strlit("\n");
    assert(carried(response) =~= json_text(response).push('\n'));
}

/// Whatever was read in a line, what is sent back reads as the same value again.
pub proof fn every_reading_outcome_reads_back(
    reading: Result<JsonView, Seq<char>>,
    session: SessionView,
)
    ensures
        reading_outcome(reading, session) matches Some(sent) ==> reads_back(sent),
{
    match reading {
        Ok(message) => every_outcome_reads_back(message, session),
        Err(why) => {
            reveal_with_fuel(is_plain, 3);
            failure_is_plain(
                RequestIdView::Null,
                PARSE_ERROR as int,
                "Parse error"@,
                details(why),
            );
        },
    }
}

/// White space around what a line holds does not matter.
pub proof fn white_space_around_does_not_matter(
    before: Seq<char>,
    line: Seq<char>,
    after: Seq<char>,
    session: SessionView,
)
    requires
        is_blank(before),
        is_blank(after),
    ensures
        line_outcome(before + line + after, session) == line_outcome(line, session),
        after_line(before + line + after, session) == after_line(line, session),
        line_outcome(trimmed(line), session) == line_outcome(line, session),
        after_line(trimmed(line), session) == after_line(line, session),
{
    white_space_is_trimmed_off(before, line, after);
    every_text_can_be_trimmed(line);
}

/// Whether a line ends in a line feed, or in a carriage return and a line feed,
/// or in neither does not matter.
pub proof fn line_end_does_not_matter(line: Seq<char>, session: SessionView)
    ensures
        line_outcome(line + seq!['\n'], session) == line_outcome(line, session),
        after_line(line + seq!['\n'], session) == after_line(line, session),
        line_outcome(line + seq!['\r', '\n'], session) == line_outcome(line, session),
        after_line(line + seq!['\r', '\n'], session) == after_line(line, session),
{
    let none = Seq::<char>::empty();
    assert(none + line =~= line);
    white_space_around_does_not_matter(none, line, seq!['\n'], session);
    white_space_around_does_not_matter(none, line, seq!['\r', '\n'], session);
}

/// A line of white space gets no response and changes nothing.
pub proof fn blank_line_is_passed_over(line: Seq<char>, session: SessionView)
    requires
        is_blank(line),
    ensures
        line_outcome(line, session) is None,
        after_line(line, session) == session,
{
    let inner = line.subrange(0, 0);
    assert(is_trimmed_at(line, inner, 0, 0));
    assert(is_trimmed(line, inner));
    trimmed_is_unique(line, inner, trimmed(line));
}

/// No line takes a session back to an earlier stage.
pub proof fn line_never_goes_back(line: Seq<char>, session: SessionView)
    ensures
        stage(after_line(line, session).init_state) >= stage(session.init_state),
{
    if let Ok(message) = parsed(trimmed(line)) {
        session_never_goes_back(message, session);
    }
}

/// Whatever a line holds, what a client has said of itself when the session began
/// stays.
pub proof fn client_stays_known_after_line(line: Seq<char>, session: SessionView)
    requires
        session.init_state != InitState::Uninitialized,
    ensures
        after_line(line, session).client_info == session.client_info,
        after_line(line, session).client_capabilities == session.client_capabilities,
{
    if let Ok(message) = parsed(trimmed(line)) {
        client_stays_known(message, session);
    }
}

/// Whatever a line holds, the session knows no more after it than it can have
/// learned.
pub proof fn line_teaches_no_more(line: Seq<char>, session: SessionView)
    requires
        knows_no_more(session),
    ensures
        knows_no_more(after_line(line, session)),
{
    if let Ok(message) = parsed(trimmed(line)) {
        session_knows_no_more_than_it_was_told(message, session);
    }
}

/// A line that is not JSON is answered with an error that carries no id and says
/// why the line could not be read. It changes nothing.
pub proof fn unreadable_line_is_refused(line: Seq<char>, session: SessionView)
    requires
        trimmed(line).len() > 0,
        parsed(trimmed(line)) is Err,
    ensures
        ({
            let response = failure(
                RequestIdView::Null,
                PARSE_ERROR as int,
                "Parse error"@,
                details(parsed(trimmed(line))->Err_0),
            );
            &&& line_outcome(line, session) == Some(carried(response))
            &&& response.member("id"@) == Some(JsonView::Null)
            &&& carries_code(response, PARSE_ERROR as int)
        }),
        after_line(line, session) == session,
{
    failure_is_response(
        RequestIdView::Null,
        PARSE_ERROR as int,
        "Parse error"@,
        details(parsed(trimmed(line))->Err_0),
    );
}

} // verus!
