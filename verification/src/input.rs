//! Serving a client from the first line of its input to the last.
use vstd::prelude::*;

use crate::laws::{knows_no_more, stage};
use crate::line::{
    after_line, client_stays_known_after_line, handle_line, line_never_goes_back, line_outcome,
    line_teaches_no_more,
};
use crate::message::{failure, RequestIdView, PARSE_ERROR};
use crate::protocol::{after_message, details, outcome};
use crate::session::{InitState, SessionState, SessionView};
use crate::text::trimmed;
use crate::value::{json_text, parsed};

verus! {

/// The session after lines one by one.
pub open spec fn after_lines(lines: Seq<Seq<char>>, session: SessionView) -> SessionView
    decreases lines.len(),
{
    if lines.len() == 0 {
        session
    } else {
        after_line(lines.last(), after_lines(lines.drop_last(), session))
    }
}

/// What is sent back for a line: a line, or nothing.
pub open spec fn sent_for(line: Seq<char>, session: SessionView) -> Seq<char> {
    match line_outcome(line, session) {
        Some(text) => text,
        None => Seq::empty(),
    }
}

/// All that is sent back for lines one by one, each in the session that the lines
/// before it left behind.
pub open spec fn lines_sent(lines: Seq<Seq<char>>, session: SessionView) -> Seq<char>
    decreases lines.len(),
{
    if lines.len() == 0 {
        Seq::empty()
    } else {
        lines_sent(lines.drop_last(), session) + sent_for(
            lines.last(),
            after_lines(lines.drop_last(), session),
        )
    }
}

/// The lines of a text, each with the line feed that it ends in: a line begins
/// with the text and after every line feed.
pub open spec fn lines_of(input: Seq<char>) -> Seq<Seq<char>>
    decreases input.len(),
{
    if input.len() == 0 {
        Seq::empty()
    } else {
        let before = lines_of(input.drop_last());
        if before.len() == 0 || before.last().last() == '\n' {
            before.push(seq![input.last()])
        } else {
            before.drop_last().push(before.last().push(input.last()))
        }
    }
}

/// All that is sent back for an input.
pub open spec fn input_sent(input: Seq<char>, session: SessionView) -> Seq<char> {
    lines_sent(lines_of(input), session)
}

/// The session after an input.
pub open spec fn after_input(input: Seq<char>, session: SessionView) -> SessionView {
    after_lines(lines_of(input), session)
}

/// What the lines of a list are.
pub open spec fn lines_view(lines: Seq<String>) -> Seq<Seq<char>> {
    lines.map_values(|line: String| line@)
}

/// Answers lines one by one, and gives all that is sent back for them.
pub fn handle_lines(lines: &Vec<String>, state: &mut SessionState) -> (sent: String)
    ensures
        sent@ == lines_sent(lines_view(lines@), old(state)@),
        final(state)@ == after_lines(lines_view(lines@), old(state)@),
{
    let ghost start = state@;
    let ghost all = lines_view(lines@);
    let mut sent = String::new();
    let mut at: usize = 0;
    while at < lines.len()
        invariant
            at <= lines@.len(),
            all == lines_view(lines@),
            sent@ == lines_sent(all.take(at as int), start),
            state@ == after_lines(all.take(at as int), start),
        decreases lines@.len() - at,
    {
        proof {
            assert(all.take(at + 1).drop_last() =~= all.take(at as int));
            assert(all.take(at + 1).last() == lines@[at as int]@);
        }
        let ghost before = sent@;
        match handle_line(lines[at].as_str(), state) {
            Some(text) => sent.append(text.as_str()),
            None => {},
        }
        assert(sent@ =~= before + sent_for(
            lines@[at as int]@,
            after_lines(all.take(at as int), start),
        ));
        at = at + 1;
    }
    assert(all.take(all.len() as int) =~= all);
    sent
}

/// For no lines nothing is sent back. One line more adds what that line gets in the
/// session that the lines before it left behind.
pub proof fn each_line_adds_what_it_gets(
    lines: Seq<Seq<char>>,
    line: Seq<char>,
    session: SessionView,
)
    ensures
        lines_sent(Seq::empty(), session) == Seq::<char>::empty(),
        after_lines(Seq::empty(), session) == session,
        ({
            let reached = after_lines(lines, session);
            &&& line_outcome(line, reached) is None ==> lines_sent(lines.push(line), session)
                == lines_sent(lines, session)
            &&& line_outcome(line, reached) matches Some(text) ==> lines_sent(
                lines.push(line),
                session,
            ) == lines_sent(lines, session) + text
            &&& after_lines(lines.push(line), session) == after_line(line, reached)
        }),
{
    assert(lines.push(line).drop_last() =~= lines);
    assert(lines_sent(lines, session) + Seq::<char>::empty() =~= lines_sent(lines, session));
}

/// The lines of a list are the texts in it, in order.
pub proof fn lines_are_the_texts(lines: Seq<String>)
    ensures
        lines_view(lines).len() == lines.len(),
        forall|i: int| 0 <= i < lines.len() ==> #[trigger] lines_view(lines)[i] == lines[i]@,
{
}

/// Lines are answered as they come: what is sent in one go can be sent in two,
/// with the same responses and to the same effect.
pub proof fn lines_can_come_in_parts(
    first: Seq<Seq<char>>,
    second: Seq<Seq<char>>,
    session: SessionView,
)
    ensures
        after_lines(first + second, session) == after_lines(second, after_lines(first, session)),
        lines_sent(first + second, session) == lines_sent(first, session) + lines_sent(
            second,
            after_lines(first, session),
        ),
    decreases second.len(),
{
    if second.len() == 0 {
        assert(first + second =~= first);
        assert(lines_sent(first, session) + Seq::<char>::empty() =~= lines_sent(first, session));
    } else {
        lines_can_come_in_parts(first, second.drop_last(), session);
        assert((first + second).drop_last() =~= first + second.drop_last());
        assert((first + second).last() == second.last());
        let middle = after_lines(first, session);
        let last = sent_for(second.last(), after_lines(second.drop_last(), middle));
        assert(lines_sent(first, session) + lines_sent(second.drop_last(), middle) + last
            =~= lines_sent(first, session) + (lines_sent(second.drop_last(), middle) + last));
    }
}

/// The lines of an input make it up, one after the other. None is empty, a line
/// feed stands at the end of a line alone, and only the last line may lack it.
pub proof fn lines_make_up_input(input: Seq<char>)
    ensures
        lines_of(input).flatten() == input,
        forall|i: int|
            0 <= i < lines_of(input).len() ==> (#[trigger] lines_of(input)[i]).len() > 0
                && !lines_of(input)[i].drop_last().contains('\n'),
        forall|i: int|
            0 <= i < lines_of(input).len() - 1 ==> (#[trigger] lines_of(input)[i]).last() == '\n',
    decreases input.len(),
{
    if input.len() > 0 {
        lines_make_up_input(input.drop_last());
        let c = input.last();
        let before = lines_of(input.drop_last());
        let lines = lines_of(input);
        assert(input =~= input.drop_last().push(c));
        if before.len() == 0 || before.last().last() == '\n' {
            before.lemma_flatten_push(seq![c]);
            assert(seq![c].drop_last() =~= Seq::empty());
            assert(before.flatten() + seq![c] =~= input);
        } else {
            let rest = before.drop_last();
            let last = before.last();
            assert(before =~= rest.push(last));
            rest.lemma_flatten_push(last);
            rest.lemma_flatten_push(last.push(c));
            assert(rest.flatten() + last.push(c) =~= (rest.flatten() + last).push(c));
            assert(last.push(c).drop_last() =~= last);
            assert(last =~= last.drop_last().push(last.last()));
            assert(!last.contains('\n'));
        }
        assert forall|i: int| 0 <= i < lines.len() - 1 implies (#[trigger] lines[i]).last()
            == '\n' && lines[i] == before[i] by {}
    }
}

/// The lines of two inputs, the first of which ends with a line, are the lines of
/// the first and then those of the second.
pub proof fn lines_of_both(first: Seq<char>, second: Seq<char>)
    requires
        first.len() > 0 ==> first.last() == '\n',
    ensures
        lines_of(first + second) == lines_of(first) + lines_of(second),
    decreases second.len(),
{
    if second.len() == 0 {
        assert(first + second =~= first);
        assert(lines_of(first) + Seq::<Seq<char>>::empty() =~= lines_of(first));
    } else {
        let rest = second.drop_last();
        lines_of_both(first, rest);
        assert((first + second).drop_last() =~= first + rest);
        assert((first + second).last() == second.last());
        if lines_of(rest).len() == 0 {
            lines_make_up_input(rest);
            assert(rest =~= Seq::empty());
            assert(lines_of(first) + lines_of(rest) =~= lines_of(first));
            if first.len() > 0 {
                last_line_ends_input(first);
            }
        }
        assert(lines_of(first + second) =~= lines_of(first) + lines_of(second));
    }
}

proof fn last_line_ends_input(input: Seq<char>)
    requires
        input.len() > 0,
    ensures
        lines_of(input).len() > 0,
        lines_of(input).last().last() == input.last(),
{
}

/// An input is answered line by line, in one session from its first line to its
/// last. All that is sent back is, for each line in turn: nothing where the line
/// is white space; else the outcome of the message that the trimmed line reads as,
/// if there is one, or the parse error where it reads as none, followed by a line
/// feed.
pub proof fn input_is_answered_line_by_line(input: Seq<char>, session: SessionView)
    ensures
        ({
            let lines = lines_of(input);
            let sent = Seq::new(
                lines.len(),
                |i: int| sent_for(lines[i], after_lines(lines.take(i), session)),
            );
            &&& input_sent(input, session) == sent.flatten()
            &&& after_input(input, session) == after_lines(lines.take(lines.len() as int), session)
            &&& forall|i: int| 0 <= i < lines.len() ==> #[trigger] sent[i] == {
                let reached = after_lines(lines.take(i), session);
                let inner = trimmed(lines[i]);
                if inner.len() == 0 {
                    Seq::<char>::empty()
                } else {
                    match parsed(inner) {
                        Ok(message) => match outcome(message, reached) {
                            Some(response) => json_text(response) + "\n"@,
                            None => Seq::<char>::empty(),
                        },
                        Err(why) => json_text(
                            failure(
                                RequestIdView::Null,
                                PARSE_ERROR as int,
                                "Parse error"@,
                                details(why),
                            ),
                        ) + "\n"@,
                    }
                }
            }
            &&& forall|i: int| 0 <= i < lines.len() ==> #[trigger] after_lines(
                lines.take(i + 1),
                session,
            ) == {
                let reached = after_lines(lines.take(i), session);
                match parsed(trimmed(lines[i])) {
                    Ok(message) => if trimmed(lines[i]).len() == 0 {
                        reached
                    } else {
                        after_message(message, reached)
                    },
                    Err(_) => reached,
                }
            }
        }),
{
    let lines = lines_of(input);
    sent_piece_by_piece(lines, session);
    assert(lines.take(lines.len() as int) =~= lines);
    assert forall|i: int| 0 <= i < lines.len() implies #[trigger] after_lines(
        lines.take(i + 1),
        session,
    ) == after_line(lines[i], after_lines(lines.take(i), session)) by {
        assert(lines.take(i + 1).drop_last() =~= lines.take(i));
    }
}

proof fn sent_piece_by_piece(lines: Seq<Seq<char>>, session: SessionView)
    ensures
        lines_sent(lines, session) == Seq::new(
            lines.len(),
            |i: int| sent_for(lines[i], after_lines(lines.take(i), session)),
        ).flatten(),
    decreases lines.len(),
{
    let pieces = Seq::new(
        lines.len(),
        |i: int| sent_for(lines[i], after_lines(lines.take(i), session)),
    );
    if lines.len() > 0 {
        let rest = lines.drop_last();
        sent_piece_by_piece(rest, session);
        let before = Seq::new(
            rest.len(),
            |i: int| sent_for(rest[i], after_lines(rest.take(i), session)),
        );
        let last = sent_for(lines.last(), after_lines(rest, session));
        assert(lines.take(lines.len() - 1) =~= rest);
        assert forall|i: int| 0 <= i < rest.len() implies #[trigger] before[i] == pieces[i] by {
            assert(rest.take(i) =~= lines.take(i));
        }
        assert(pieces =~= before.push(last));
        before.lemma_flatten_push(last);
    }
}

/// An input can come in parts that end with a line each: the responses and what
/// becomes of the session are the same.
pub proof fn input_can_come_in_parts(first: Seq<char>, second: Seq<char>, session: SessionView)
    requires
        first.len() > 0 ==> first.last() == '\n',
    ensures
        input_sent(first + second, session) == input_sent(first, session) + input_sent(
            second,
            after_input(first, session),
        ),
        after_input(first + second, session) == after_input(second, after_input(first, session)),
{
    lines_of_both(first, second);
    lines_can_come_in_parts(lines_of(first), lines_of(second), session);
}

/// No lines take a session back to an earlier stage.
pub proof fn lines_never_go_back(lines: Seq<Seq<char>>, session: SessionView)
    ensures
        stage(after_lines(lines, session).init_state) >= stage(session.init_state),
    decreases lines.len(),
{
    if lines.len() > 0 {
        lines_never_go_back(lines.drop_last(), session);
        line_never_goes_back(lines.last(), after_lines(lines.drop_last(), session));
    }
}

/// Whatever lines come, what a client has said of itself when the session began
/// stays.
pub proof fn client_stays_known_after_lines(lines: Seq<Seq<char>>, session: SessionView)
    requires
        session.init_state != InitState::Uninitialized,
    ensures
        after_lines(lines, session).client_info == session.client_info,
        after_lines(lines, session).client_capabilities == session.client_capabilities,
    decreases lines.len(),
{
    if lines.len() > 0 {
        let rest = lines.drop_last();
        client_stays_known_after_lines(rest, session);
        lines_never_go_back(rest, session);
        client_stays_known_after_line(lines.last(), after_lines(rest, session));
    }
}

/// Whatever lines come, the session knows no more after them than it can have
/// learned.
pub proof fn lines_teach_no_more(lines: Seq<Seq<char>>)
    ensures
        knows_no_more(after_lines(lines, SessionView::fresh())),
    decreases lines.len(),
{
    if lines.len() > 0 {
        lines_teach_no_more(lines.drop_last());
        line_teaches_no_more(lines.last(), after_lines(lines.drop_last(), SessionView::fresh()));
    }
}

} // verus!
