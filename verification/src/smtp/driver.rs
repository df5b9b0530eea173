//! The connection driver without its input and output: lines go in one at a
//! time, replies and finished messages come out in order.

use crate::smtp::envelope::{Message, MessageView};
use crate::reply::{Reply, ReplyView};
use crate::smtp::session::{Outcome, OutcomeView, Session, SessionView, State};
use vstd::prelude::*;

verus! {

/// What the connection reports to the session.
#[derive(Clone, Copy, Debug, PartialEq, Eq)]
pub enum Event<'a> {
    /// One input line arrived, delimiter already removed.
    Line(&'a str),
    /// The peer closed the stream.
    EndOfStream,
    /// Reading from the peer or writing a reply to it failed.
    Failed,
}

/// The mathematical content of an `Event`.
pub ghost enum EventView {
    Line(Seq<char>),
    EndOfStream,
    Failed,
}

impl<'a> View for Event<'a> {
    type V = EventView;

    open spec fn view(&self) -> EventView {
        match *self {
            Event::Line(line) => EventView::Line(line@),
            Event::EndOfStream => EventView::EndOfStream,
            Event::Failed => EventView::Failed,
        }
    }
}

/// How a session reacts to an event. A line is processed. The end of the
/// stream and a failure end the session: the envelope in progress is dropped,
/// nothing is delivered and nothing is written.
pub open spec fn react(session: SessionView, event: EventView) -> (SessionView, OutcomeView) {
    match event {
        EventView::Line(line) => session.step(line),
        EventView::EndOfStream | EventView::Failed => (
            SessionView::idle(State::Closed),
            OutcomeView::silent(),
        ),
    }
}

/// Everything a run of lines produced, in order.
#[derive(Debug)]
pub struct Transcript {
    /// The replies written to the peer.
    pub replies: Vec<Reply>,
    /// The messages handed off for delivery.
    pub delivered: Vec<Message>,
}

/// The mathematical content of a `Transcript`.
pub ghost struct TranscriptView {
    pub replies: Seq<ReplyView>,
    pub delivered: Seq<MessageView>,
}

impl View for Transcript {
    type V = TranscriptView;

    open spec fn view(&self) -> TranscriptView {
        TranscriptView {
            replies: self.replies.deep_view(),
            delivered: self.delivered.deep_view(),
        }
    }
}

impl TranscriptView {
    /// Nothing written, nothing delivered.
    pub open spec fn empty() -> TranscriptView {
        TranscriptView { replies: Seq::empty(), delivered: Seq::empty() }
    }

    /// The transcript with what one line produced added at the end.
    pub open spec fn record(self, outcome: OutcomeView) -> TranscriptView {
        TranscriptView {
            replies: match outcome.reply {
                Some(reply) => self.replies.push(reply),
                None => self.replies,
            },
            delivered: match outcome.delivered {
                Some(message) => self.delivered.push(message),
                None => self.delivered,
            },
        }
    }

    /// This transcript followed by another.
    pub open spec fn followed_by(self, later: TranscriptView) -> TranscriptView {
        TranscriptView {
            replies: self.replies + later.replies,
            delivered: self.delivered + later.delivered,
        }
    }
}

/// The session after `lines`, processed in order from `start`, and what they
/// produced. A closed session takes no further line.
pub open spec fn run(start: SessionView, lines: Seq<Seq<char>>) -> (SessionView, TranscriptView)
    decreases lines.len(),
{
    if lines.len() == 0 {
        (start, TranscriptView::empty())
    } else {
        let (before, transcript) = run(start, lines.drop_last());
        let (after, outcome) = before.step(lines.last());
        (after, transcript.record(outcome))
    }
}

/// What one whole connection produces: the banner, then the run of `lines`
/// from a fresh session. The stream ends after the last line; whatever
/// message is then in progress is not part of the result.
pub open spec fn connection(lines: Seq<Seq<char>>) -> TranscriptView {
    TranscriptView { replies: seq![ReplyView::banner()], delivered: Seq::empty() }.followed_by(
        run(SessionView::initial(), lines).1,
    )
}

/// The invariant of a session holds after every line.
pub proof fn lemma_step_keeps_invariant(session: SessionView, line: Seq<char>)
    requires
        session.wf(),
    ensures
        session.step(line).0.wf(),
{
}

/// The invariant of a session holds after every run of lines.
pub proof fn lemma_run_keeps_invariant(start: SessionView, lines: Seq<Seq<char>>)
    requires
        start.wf(),
    ensures
        run(start, lines).0.wf(),
    decreases lines.len(),
{
    if lines.len() > 0 {
        lemma_run_keeps_invariant(start, lines.drop_last());
        lemma_step_keeps_invariant(run(start, lines.drop_last()).0, lines.last());
    }
}

/// A closed session stays closed and produces nothing, whatever lines follow.
pub proof fn lemma_closed_takes_nothing(start: SessionView, lines: Seq<Seq<char>>)
    requires
        start.state == State::Closed,
    ensures
        run(start, lines) == (start, TranscriptView::empty()),
    decreases lines.len(),
{
    if lines.len() > 0 {
        lemma_closed_takes_nothing(start, lines.drop_last());
    }
}

/// Running two stretches of lines one after the other is running their
/// concatenation.
pub proof fn lemma_run_concat(start: SessionView, first: Seq<Seq<char>>, second: Seq<Seq<char>>)
    ensures
        run(start, first + second).0 == run(run(start, first).0, second).0,
        run(start, first + second).1 == run(start, first).1.followed_by(
            run(run(start, first).0, second).1,
        ),
    decreases second.len(),
{
    let middle = run(start, first).0;
    if second.len() == 0 {
        assert(first + second =~= first);
        let t = run(start, first).1;
        assert(t.followed_by(TranscriptView::empty()).replies =~= t.replies);
        assert(t.followed_by(TranscriptView::empty()).delivered =~= t.delivered);
    } else {
        lemma_run_concat(start, first, second.drop_last());
        assert((first + second).drop_last() =~= first + second.drop_last());
        assert((first + second).last() == second.last());
        let t1 = run(start, first).1;
        let (before, t2) = run(middle, second.drop_last());
        let outcome = before.step(second.last()).1;
        assert(t1.followed_by(t2).record(outcome).replies =~= t1.followed_by(t2.record(outcome)).replies);
        assert(t1.followed_by(t2).record(outcome).delivered =~= t1.followed_by(t2.record(outcome)).delivered);
    }
}

impl Transcript {
    /// A transcript with nothing in it.
    pub fn new() -> (transcript: Transcript)
        ensures
            transcript@ == TranscriptView::empty(),
    {
        let transcript = Transcript { replies: Vec::new(), delivered: Vec::new() };
        assert(transcript@.replies =~= Seq::<ReplyView>::empty());
        assert(transcript@.delivered =~= Seq::<MessageView>::empty());
        transcript
    }

    /// Adds what one line produced.
    pub fn record(&mut self, outcome: Outcome)
        ensures
            final(self)@ == old(self)@.record(outcome@),
    {
        let Outcome { reply, delivered } = outcome;
        match reply {
            Some(reply) => {
                self.replies.push(reply);
                assert(self.replies.deep_view() =~= old(self).replies.deep_view().push(reply@));
            },
            None => {},
        }
        match delivered {
            Some(message) => {
                self.delivered.push(message);
                assert(self.delivered.deep_view() =~= old(self).delivered.deep_view().push(
                    message@,
                ));
            },
            None => {},
        }
    }
}

/// Lets the session react to one event. The caller writes the reply, hands
/// off the message, and stops reading once the session is closed.
pub fn on_event(session: &mut Session, event: Event) -> (outcome: Outcome)
    requires
        old(session).wf(),
    ensures
        final(session).wf(),
        final(session)@ == react(old(session)@, event@).0,
        outcome@ == react(old(session)@, event@).1,
        outcome@.reply matches Some(reply) ==> reply.well_formed(),
        !(event is Line) ==> outcome@ == OutcomeView::silent() && final(session)@.state
            == State::Closed,
{
    match event {
        Event::Line(line) => session.handle_line(line),
        Event::EndOfStream => {
            session.disconnect();
            Outcome::silent()
        },
        Event::Failed => {
            session.disconnect();
            Outcome::silent()
        },
    }
}

/// Feeds `lines` to the session in order and gathers what they produce. Stops
/// taking lines once the session is closed.
pub fn run_lines(session: &mut Session, lines: &Vec<String>) -> (transcript: Transcript)
    requires
        old(session).wf(),
    ensures
        final(session).wf(),
        final(session)@ == run(old(session)@, lines.deep_view()).0,
        transcript@ == run(old(session)@, lines.deep_view()).1,
{
    let ghost start = session@;
    let ghost all = lines.deep_view();
    let mut transcript: Transcript = Transcript::new();
    let mut i: usize = 0;
    while i < lines.len() && !session.is_closed()
        invariant
            i <= lines.len(),
            all == lines.deep_view(),
            session.wf(),
            session@ == run(start, all.take(i as int)).0,
            transcript@ == run(start, all.take(i as int)).1,
        decreases lines.len() - i,
    {
        proof {
            assert(all.take(i + 1).drop_last() =~= all.take(i as int));
            assert(all.take(i + 1).last() == lines@[i as int]@);
        }
        let outcome: Outcome = session.handle_line(lines[i].as_str());
        transcript.record(outcome);
        i += 1;
    }
    proof {
        assert(all =~= all.take(i as int) + all.skip(i as int));
        lemma_run_concat(start, all.take(i as int), all.skip(i as int));
        if i < lines.len() {
            lemma_closed_takes_nothing(session@, all.skip(i as int));
        }
        let t = transcript@;
        assert(t.followed_by(TranscriptView::empty()).replies =~= t.replies);
        assert(t.followed_by(TranscriptView::empty()).delivered =~= t.delivered);
    }
    transcript
}

/// Serves one whole connection whose input is `lines` followed by the end of
/// the stream: the banner, the replies to the lines, and the messages
/// completed by a terminator. A message still in progress when the stream
/// ends is dropped.
pub fn serve(lines: &Vec<String>) -> (transcript: Transcript)
    ensures
        transcript@ == connection(lines.deep_view()),
{
    let mut session: Session = Session::new();
    let Transcript { replies: mut answers, delivered } = run_lines(&mut session, lines);
    session.disconnect();
    let ghost rest = TranscriptView {
        replies: answers.deep_view(),
        delivered: delivered.deep_view(),
    };
    let mut replies: Vec<Reply> = Vec::new();
    replies.push(Reply::banner());
    replies.append(&mut answers);
    let transcript = Transcript { replies, delivered };
    proof {
        let banner = TranscriptView { replies: seq![ReplyView::banner()], delivered: Seq::empty() };
        assert(transcript@.replies =~= banner.followed_by(rest).replies);
        assert(transcript@.delivered =~= banner.followed_by(rest).delivered);
    }
    transcript
}

} // verus!
