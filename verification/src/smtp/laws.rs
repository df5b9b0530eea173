//! What holds of every session, stated over the transition function and
//! proved once and for all.

use crate::smtp::command::{
    address_of, lemma_recipient_line_reads_back, lemma_sender_line_reads_back, parse,
    recipient_line, sender_line, Verb,
};
use crate::smtp::driver::{
    lemma_closed_takes_nothing, lemma_run_concat, lemma_run_keeps_invariant, run, TranscriptView,
};
use crate::smtp::envelope::{EnvelopeView, MessageView};
use crate::reply::ReplyView;
use crate::smtp::session::{terminator, OutcomeView, SessionView, State};
use crate::text::{is_single_line, join_lines, lemma_split_join, split_lines};
use vstd::prelude::*;

verus! {

/// A line that names a recipient: `RCPT TO:` followed by an address that is
/// not empty.
pub open spec fn names_recipient(line: Seq<char>) -> bool {
    parse(line).verb == Verb::AddRecipient && address_of(parse(line).argument).len() > 0
}

/// The address that a line with `RCPT TO:` names.
pub open spec fn recipient_named(line: Seq<char>) -> Seq<char> {
    address_of(parse(line).argument)
}

/// A message is handed off by the terminator in `ReceivingBody` and by
/// nothing else; and a reply is written for every line but a body line and a
/// line to a closed session.
pub proof fn lemma_when_delivered_and_replied(session: SessionView, line: Seq<char>)
    requires
        session.wf(),
    ensures
        session.step(line).1.delivered is Some <==> (session.state == State::ReceivingBody && line
            == terminator()),
        session.step(line).1.reply is None <==> (session.state == State::Closed || (session.state
            == State::ReceivingBody && line != terminator())),
{
}

/// Whatever is refused changes nothing: a reply of 500 or 503 leaves the
/// session exactly as it was.
pub proof fn lemma_refusal_changes_nothing(session: SessionView, line: Seq<char>)
    requires
        session.wf(),
        session.step(line).1.reply matches Some(reply) && (reply.code == 500 || reply.code == 503),
    ensures
        session.step(line).0 == session,
        session.step(line).1.delivered is None,
{
}

/// Recipients accumulate in order. From `SenderSet` or `RecipientSet`, a run
/// of lines that each name a recipient appends exactly the addresses named,
/// in the order of the lines, and each line is answered with 250. So the list
/// grows by the number of lines, and a message that starts in `SenderSet`
/// ends with as many recipients as there were lines.
pub proof fn lemma_recipients_accumulate(start: SessionView, lines: Seq<Seq<char>>)
    requires
        start.wf(),
        start.state == State::SenderSet || start.state == State::RecipientSet,
        forall|i: int| 0 <= i < lines.len() ==> names_recipient(#[trigger] lines[i]),
    ensures
        run(start, lines).0.envelope.recipients == start.envelope.recipients + lines.map_values(
            |line: Seq<char>| recipient_named(line),
        ),
        run(start, lines).0.envelope.recipients.len() == start.envelope.recipients.len()
            + lines.len(),
        start.state == State::SenderSet ==> run(start, lines).0.envelope.recipients.len()
            == lines.len(),
        run(start, lines).0.envelope.sender == start.envelope.sender,
        run(start, lines).0.envelope.body == start.envelope.body,
        run(start, lines).0.state == if lines.len() == 0 {
            start.state
        } else {
            State::RecipientSet
        },
        run(start, lines).1.replies == Seq::new(lines.len(), |i: int| ReplyView::ok()),
        run(start, lines).1.delivered.len() == 0,
    decreases lines.len(),
{
    let named = |line: Seq<char>| recipient_named(line);
    if lines.len() == 0 {
        assert(start.envelope.recipients + lines.map_values(named)
            =~= start.envelope.recipients);
        assert(run(start, lines).1.replies =~= Seq::new(lines.len(), |i: int| ReplyView::ok()));
    } else {
        let front = lines.drop_last();
        lemma_recipients_accumulate(start, front);
        let (before, transcript) = run(start, front);
        assert(names_recipient(lines.last()));
        assert(before.envelope.recipients.push(recipient_named(lines.last()))
            =~= start.envelope.recipients + lines.map_values(named));
        assert(transcript.replies.push(ReplyView::ok()) =~= Seq::new(
            lines.len(),
            |i: int| ReplyView::ok(),
        ));
    }
}

/// The same of addresses: from `SenderSet` or `RecipientSet`, naming the
/// addresses one per line in the usual form leaves exactly these addresses
/// after the recipients there were, in order and with repetitions.
pub proof fn lemma_recipients_by_address(start: SessionView, addresses: Seq<Seq<char>>)
    requires
        start.wf(),
        start.state == State::SenderSet || start.state == State::RecipientSet,
        forall|i: int| 0 <= i < addresses.len() ==> (#[trigger] addresses[i]).len() > 0,
    ensures
        run(
            start,
            addresses.map_values(|address: Seq<char>| recipient_line(address)),
        ).0.envelope.recipients == start.envelope.recipients + addresses,
{
    let lines = addresses.map_values(|address: Seq<char>| recipient_line(address));
    assert forall|i: int| 0 <= i < lines.len() implies names_recipient(#[trigger] lines[i]) by {
        lemma_recipient_line_reads_back(addresses[i]);
    }
    lemma_recipients_accumulate(start, lines);
    let named = lines.map_values(|line: Seq<char>| recipient_named(line));
    assert(named =~= addresses) by {
        assert forall|i: int| 0 <= i < addresses.len() implies named[i] == addresses[i] by {
            lemma_recipient_line_reads_back(addresses[i]);
        }
    }
}

/// The body cannot begin before a recipient is known. After the greeting
/// and before the first recipient (in `Greeted` and in `SenderSet`), `DATA`
/// is answered with 503 and the session is left exactly as it was.
pub proof fn lemma_body_needs_recipient(session: SessionView, line: Seq<char>)
    requires
        session.wf(),
        session.state == State::Greeted || session.state == State::SenderSet,
        parse(line).verb == Verb::BeginBody,
    ensures
        session.step(line).0 == session,
        session.step(line).1 == OutcomeView::reply(ReplyView::bad_sequence()),
        ReplyView::bad_sequence().code == 503,
{
}

/// The hand-off resets state and envelope together. The terminator in
/// `ReceivingBody` delivers the message and leaves an empty envelope in
/// `Greeted`; a recipient named right after it, without a new sender, is
/// answered with 503 and changes nothing.
pub proof fn lemma_recipient_after_hand_off(session: SessionView, line: Seq<char>)
    requires
        session.wf(),
        session.state == State::ReceivingBody,
        parse(line).verb == Verb::AddRecipient,
    ensures
        session.step(terminator()).0 == SessionView::idle(State::Greeted),
        session.step(terminator()).1.delivered == session.envelope.snapshot(),
        session.step(terminator()).1.delivered is Some,
        session.step(terminator()).0.step(line).0 == SessionView::idle(State::Greeted),
        session.step(terminator()).0.step(line).1 == OutcomeView::reply(
            ReplyView::bad_sequence(),
        ),
        run(session, seq![terminator(), line]).0 == SessionView::idle(State::Greeted),
        run(session, seq![terminator(), line]).1.replies == seq![
            ReplyView::accepted(),
            ReplyView::bad_sequence(),
        ],
        run(session, seq![terminator(), line]).1.delivered.len() == 1,
{
    let lines = seq![terminator(), line];
    assert(lines.drop_last() =~= seq![terminator()]);
    assert(seq![terminator()].drop_last() =~= Seq::<Seq<char>>::empty());
    assert(run(session, seq![terminator()]).0 == session.step(terminator()).0) by {
        reveal_with_fuel(run, 2);
    }
    assert(run(session, seq![terminator()]).1 == TranscriptView::empty().record(
        session.step(terminator()).1,
    )) by {
        reveal_with_fuel(run, 2);
    }
    assert(run(session, lines).1.replies =~= seq![
        ReplyView::accepted(),
        ReplyView::bad_sequence(),
    ]);
}

/// Without a terminator nothing is delivered. A run of lines none of which
/// is the terminator hands off no message, from whatever state it starts; in
/// `ReceivingBody` it only lengthens the body. When the stream ends there,
/// the session is closed with the message still undelivered.
pub proof fn lemma_no_delivery_without_terminator(start: SessionView, lines: Seq<Seq<char>>)
    requires
        start.wf(),
        forall|i: int| 0 <= i < lines.len() ==> #[trigger] lines[i] != terminator(),
    ensures
        run(start, lines).1.delivered.len() == 0,
        start.state == State::ReceivingBody ==> run(start, lines).0 == (SessionView {
            state: State::ReceivingBody,
            envelope: EnvelopeView { body: start.envelope.body + lines, ..start.envelope },
        }),
        start.state == State::ReceivingBody ==> run(start, lines).1.replies.len() == 0,
    decreases lines.len(),
{
    if lines.len() == 0 {
        assert(start.envelope.body + lines =~= start.envelope.body);
    } else {
        let front = lines.drop_last();
        lemma_no_delivery_without_terminator(start, front);
        assert(lines.last() != terminator());
        let before = run(start, front).0;
        lemma_run_keeps_invariant(start, front);
        lemma_when_delivered_and_replied(before, lines.last());
        if start.state == State::ReceivingBody {
            assert((start.envelope.body + front).push(lines.last()) =~= start.envelope.body
                + lines);
        }
    }
}

/// `QUIT` ends the session. Outside the body phase, a line that reads as
/// `QUIT` is answered with exactly one reply, 221, and closes the session;
/// whatever lines follow it are not processed: they produce no reply and no
/// delivery.
pub proof fn lemma_quit_ends_session(
    session: SessionView,
    line: Seq<char>,
    rest: Seq<Seq<char>>,
)
    requires
        session.wf(),
        session.state != State::ReceivingBody,
        session.state != State::Closed,
        parse(line).verb == Verb::Quit,
    ensures
        session.step(line).0 == SessionView::idle(State::Closed),
        session.step(line).1 == OutcomeView::reply(ReplyView::bye()),
        ReplyView::bye().code == 221,
        run(session, seq![line] + rest).0 == SessionView::idle(State::Closed),
        run(session, seq![line] + rest).1.replies == seq![ReplyView::bye()],
        run(session, seq![line] + rest).1.delivered.len() == 0,
{
    let first = seq![line];
    assert(first.drop_last() =~= Seq::<Seq<char>>::empty());
    assert(run(session, first).0 == session.step(line).0) by {
        reveal_with_fuel(run, 2);
    }
    assert(run(session, first).1 == TranscriptView::empty().record(session.step(line).1)) by {
        reveal_with_fuel(run, 2);
    }
    lemma_run_concat(session, first, rest);
    lemma_closed_takes_nothing(SessionView::idle(State::Closed), rest);
    assert(run(session, first + rest).1.replies =~= seq![ReplyView::bye()]);
}

/// The body comes out as it went in. In `ReceivingBody`, lines none of which
/// is the terminator, followed by the terminator, deliver exactly one
/// message: the sender and recipients of the envelope, and as body the lines
/// gathered before and these lines, unchanged and in order, joined by line
/// feeds. The session is back in `Greeted` with an empty envelope.
pub proof fn lemma_body_round_trip(start: SessionView, lines: Seq<Seq<char>>)
    requires
        start.wf(),
        start.state == State::ReceivingBody,
        forall|i: int| 0 <= i < lines.len() ==> #[trigger] lines[i] != terminator(),
    ensures
        run(start, lines.push(terminator())).0 == SessionView::idle(State::Greeted),
        run(start, lines.push(terminator())).1.replies == seq![ReplyView::accepted()],
        run(start, lines.push(terminator())).1.delivered == seq![
            MessageView {
                sender: start.envelope.sender->0,
                recipients: start.envelope.recipients,
                body: join_lines(start.envelope.body + lines),
            },
        ],
{
    let all = lines.push(terminator());
    assert(all.drop_last() =~= lines);
    lemma_no_delivery_without_terminator(start, lines);
    let transcript = run(start, lines).1;
    assert(transcript.replies =~= Seq::<ReplyView>::empty());
    assert(transcript.delivered =~= Seq::<MessageView>::empty());
    assert(run(start, all).1.replies =~= seq![ReplyView::accepted()]);
    assert(run(start, all).1.delivered =~= seq![
        MessageView {
            sender: start.envelope.sender->0,
            recipients: start.envelope.recipients,
            body: join_lines(start.envelope.body + lines),
        },
    ]);
}

/// The lines of a whole conversation for one message: a greeting, the
/// sender, the recipients one per line, the request to send the body, the
/// body lines and the terminator.
pub open spec fn conversation(
    greeting: Seq<char>,
    sender: Seq<char>,
    recipients: Seq<Seq<char>>,
    begin: Seq<char>,
    body: Seq<Seq<char>>,
) -> Seq<Seq<char>> {
    seq![greeting, sender_line(sender)] + recipients.map_values(
        |address: Seq<char>| recipient_line(address),
    ) + seq![begin] + body.push(terminator())
}

/// A whole conversation delivers its message, once. From a fresh session, a
/// greeting, a sender, at least one recipient, `DATA`, body lines and the
/// terminator hand off exactly one message, with this sender, these
/// recipients in order and this body; every line but the body lines is
/// answered, and the session is back in `Greeted` with an empty envelope.
pub proof fn lemma_conversation_delivers(
    greeting: Seq<char>,
    sender: Seq<char>,
    recipients: Seq<Seq<char>>,
    begin: Seq<char>,
    body: Seq<Seq<char>>,
)
    requires
        parse(greeting).verb == Verb::Greet,
        sender.len() > 0,
        recipients.len() > 0,
        forall|i: int| 0 <= i < recipients.len() ==> (#[trigger] recipients[i]).len() > 0,
        parse(begin).verb == Verb::BeginBody,
        forall|i: int| 0 <= i < body.len() ==> #[trigger] body[i] != terminator(),
    ensures
        run(
            SessionView::initial(),
            conversation(greeting, sender, recipients, begin, body),
        ).0 == SessionView::idle(State::Greeted),
        run(
            SessionView::initial(),
            conversation(greeting, sender, recipients, begin, body),
        ).1.delivered == seq![MessageView { sender, recipients, body: join_lines(body) }],
        run(
            SessionView::initial(),
            conversation(greeting, sender, recipients, begin, body),
        ).1.replies == seq![ReplyView::hello(), ReplyView::ok()] + Seq::new(
            recipients.len(),
            |i: int| ReplyView::ok(),
        ) + seq![ReplyView::start_body(), ReplyView::accepted()],
{
    let opening = seq![greeting, sender_line(sender)];
    let naming = recipients.map_values(|address: Seq<char>| recipient_line(address));
    let asking = seq![begin];
    let sending = body.push(terminator());
    let fresh = SessionView::initial();

    lemma_sender_line_reads_back(sender);
    assert(opening.drop_last() =~= seq![greeting]);
    assert(seq![greeting].drop_last() =~= Seq::<Seq<char>>::empty());
    reveal_with_fuel(run, 3);
    let (known, t1) = run(fresh, opening);
    assert(known == SessionView {
        state: State::SenderSet,
        envelope: EnvelopeView::empty().with_sender(sender),
    });
    assert(t1.replies =~= seq![ReplyView::hello(), ReplyView::ok()]);
    assert(t1.delivered =~= Seq::<MessageView>::empty());

    assert forall|i: int| 0 <= i < naming.len() implies names_recipient(#[trigger] naming[i]) by {
        lemma_recipient_line_reads_back(recipients[i]);
    }
    lemma_recipients_accumulate(known, naming);
    lemma_recipients_by_address(known, recipients);
    let (named, t2) = run(known, naming);
    assert(named.envelope.recipients =~= recipients);
    assert(t2.delivered =~= Seq::<MessageView>::empty());

    assert(asking.drop_last() =~= Seq::<Seq<char>>::empty());
    let (receiving, t3) = run(named, asking);
    assert(receiving == named.in_state(State::ReceivingBody));
    assert(t3.replies =~= seq![ReplyView::start_body()]);
    assert(t3.delivered =~= Seq::<MessageView>::empty());

    lemma_body_round_trip(receiving, body);
    let (done, t4) = run(receiving, sending);
    assert(receiving.envelope.body + body =~= body);

    lemma_run_concat(fresh, opening, naming);
    lemma_run_concat(fresh, opening + naming, asking);
    lemma_run_concat(fresh, opening + naming + asking, sending);
    let total = run(fresh, conversation(greeting, sender, recipients, begin, body)).1;
    assert(total.replies =~= seq![ReplyView::hello(), ReplyView::ok()] + Seq::new(
        recipients.len(),
        |i: int| ReplyView::ok(),
    ) + seq![ReplyView::start_body(), ReplyView::accepted()]);
    assert(total.delivered =~= seq![
        MessageView { sender, recipients, body: join_lines(body) },
    ]);
}

/// The lines of a delivered body can be told apart again. A body received
/// from the start of the body phase, of at least one line and with no line
/// feed inside a line, is delivered as a text whose lines are exactly the
/// lines received.
pub proof fn lemma_body_lines_recoverable(start: SessionView, lines: Seq<Seq<char>>)
    requires
        start.wf(),
        start.state == State::ReceivingBody,
        start.envelope.body.len() == 0,
        lines.len() > 0,
        forall|i: int| 0 <= i < lines.len() ==> #[trigger] lines[i] != terminator(),
        forall|i: int| 0 <= i < lines.len() ==> is_single_line(#[trigger] lines[i]),
    ensures
        run(start, lines.push(terminator())).1.delivered.len() == 1,
        split_lines(run(start, lines.push(terminator())).1.delivered[0].body) == lines,
{
    lemma_body_round_trip(start, lines);
    assert(start.envelope.body + lines =~= lines);
    lemma_split_join(lines);
}

} // verus!
