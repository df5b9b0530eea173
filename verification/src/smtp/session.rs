//! The session state machine: which lines are legal in which state, what
//! each does to the envelope, and what is replied.

use crate::smtp::command::{address_of, extract_address, parse, parse_command};
use crate::smtp::command::{Command, CommandView, Verb};
use crate::smtp::envelope::{Envelope, EnvelopeView, Message, MessageView};
use crate::reply::{Reply, ReplyView};
use crate::text::equals;
use vstd::prelude::*;

verus! {

/// Where a session stands in the conversation.
#[derive(Clone, Copy, Debug, PartialEq, Eq, Structural)]
pub enum State {
    /// Connected, not yet greeted.
    Initial,
    /// Greeted; no message in progress.
    Greeted,
    /// The sender of a message is known.
    SenderSet,
    /// The sender and at least one recipient are known.
    RecipientSet,
    /// Every line is body text until the terminator.
    ReceivingBody,
    /// The session has ended; nothing more is processed.
    Closed,
}

/// The mathematical content of a `Session`.
pub ghost struct SessionView {
    pub state: State,
    pub envelope: EnvelopeView,
}

/// The mathematical content of an `Outcome`.
pub ghost struct OutcomeView {
    pub reply: Option<ReplyView>,
    pub delivered: Option<MessageView>,
}

/// The line that ends a body: a single period.
pub open spec fn terminator() -> Seq<char> {
    "."@
}

impl OutcomeView {
    /// Nothing to write and nothing to deliver.
    pub open spec fn silent() -> OutcomeView {
        OutcomeView { reply: None, delivered: None }
    }

    /// One reply to write, nothing to deliver.
    pub open spec fn reply(reply: ReplyView) -> OutcomeView {
        OutcomeView { reply: Some(reply), delivered: None }
    }
}

impl SessionView {
    /// A session just connected.
    pub open spec fn initial() -> SessionView {
        SessionView { state: State::Initial, envelope: EnvelopeView::empty() }
    }

    /// A session in `state` with no message in progress.
    pub open spec fn idle(state: State) -> SessionView {
        SessionView { state, envelope: EnvelopeView::empty() }
    }

    /// The same session in another state.
    pub open spec fn in_state(self, state: State) -> SessionView {
        SessionView { state, ..self }
    }

    /// The invariant of a session. The envelope holds a sender exactly in the
    /// states `SenderSet`, `RecipientSet` and `ReceivingBody`, recipients
    /// exactly in `RecipientSet` and `ReceivingBody`, and body lines only in
    /// `ReceivingBody`. No address is empty.
    pub open spec fn wf(self) -> bool {
        let e = self.envelope;
        &&& match self.state {
            State::Initial | State::Greeted | State::Closed => {
                e.sender is None && e.recipients.len() == 0 && e.body.len() == 0
            },
            State::SenderSet => e.sender is Some && e.recipients.len() == 0 && e.body.len() == 0,
            State::RecipientSet => e.sender is Some && e.recipients.len() > 0 && e.body.len() == 0,
            State::ReceivingBody => e.sender is Some && e.recipients.len() > 0,
        }
        &&& e.sender matches Some(sender) ==> sender.len() > 0
        &&& forall|i: int| 0 <= i < e.recipients.len() ==> (#[trigger] e.recipients[i]).len() > 0
    }

    /// What one command does outside the body phase. `QUIT` ends the session
    /// from every such state and drops the envelope. Otherwise each state
    /// accepts the commands of its row; every other command, and an address
    /// command whose address is empty, changes nothing and is answered with
    /// 500 before the greeting and with 503 after it.
    pub open spec fn apply(self, command: CommandView) -> (SessionView, OutcomeView)
        recommends
            self.state != State::ReceivingBody,
            self.state != State::Closed,
    {
        let address = address_of(command.argument);
        if command.verb == Verb::Quit {
            (SessionView::idle(State::Closed), OutcomeView::reply(ReplyView::bye()))
        } else if self.state == State::Initial {
            if command.verb == Verb::Greet {
                (self.in_state(State::Greeted), OutcomeView::reply(ReplyView::hello()))
            } else {
                (self, OutcomeView::reply(ReplyView::syntax_error()))
            }
        } else if self.state == State::Greeted && command.verb == Verb::SetSender
            && address.len() > 0 {
            (
                SessionView {
                    state: State::SenderSet,
                    envelope: self.envelope.with_sender(address),
                },
                OutcomeView::reply(ReplyView::ok()),
            )
        } else if (self.state == State::SenderSet || self.state == State::RecipientSet)
            && command.verb == Verb::AddRecipient && address.len() > 0 {
            (
                SessionView {
                    state: State::RecipientSet,
                    envelope: self.envelope.with_recipient(address),
                },
                OutcomeView::reply(ReplyView::ok()),
            )
        } else if self.state == State::RecipientSet && command.verb == Verb::BeginBody {
            (self.in_state(State::ReceivingBody), OutcomeView::reply(ReplyView::start_body()))
        } else {
            (self, OutcomeView::reply(ReplyView::bad_sequence()))
        }
    }

    /// What one input line does: the session after it, and what is to be
    /// written and delivered.
    ///
    /// In `ReceivingBody` the line is body text, whatever it looks like: the
    /// terminator hands the message off, empties the envelope and returns to
    /// `Greeted`; any other line is appended to the body without a reply. In
    /// `Closed` nothing happens. In every other state the line is read as a
    /// command.
    pub open spec fn step(self, line: Seq<char>) -> (SessionView, OutcomeView) {
        if self.state == State::Closed {
            (self, OutcomeView::silent())
        } else if self.state == State::ReceivingBody {
            if line == terminator() {
                (
                    SessionView::idle(State::Greeted),
                    OutcomeView {
                        reply: Some(ReplyView::accepted()),
                        delivered: self.envelope.snapshot(),
                    },
                )
            } else {
                (
                    SessionView { envelope: self.envelope.with_body_line(line), ..self },
                    OutcomeView::silent(),
                )
            }
        } else {
            self.apply(parse(line))
        }
    }
}

/// What processing one line asks of the connection.
#[derive(Debug)]
pub struct Outcome {
    /// The reply to write to the peer, if any.
    pub reply: Option<Reply>,
    /// The message to hand off for delivery, if one was completed.
    pub delivered: Option<Message>,
}

impl View for Outcome {
    type V = OutcomeView;

    open spec fn view(&self) -> OutcomeView {
        OutcomeView { reply: self.reply.deep_view(), delivered: self.delivered.deep_view() }
    }
}

impl Outcome {
    /// Nothing to write and nothing to deliver.
    pub fn silent() -> (outcome: Outcome)
        ensures
            outcome@ == OutcomeView::silent(),
    {
        Outcome { reply: None, delivered: None }
    }

    /// One reply to write, nothing to deliver.
    pub fn reply(reply: Reply) -> (outcome: Outcome)
        ensures
            outcome@ == OutcomeView::reply(reply@),
    {
        Outcome { reply: Some(reply), delivered: None }
    }
}

/// The state of one accepted connection.
#[derive(Debug)]
pub struct Session {
    state: State,
    envelope: Envelope,
}

impl View for Session {
    type V = SessionView;

    closed spec fn view(&self) -> SessionView {
        SessionView { state: self.state, envelope: self.envelope@ }
    }
}

impl Session {
    /// The invariant that every operation keeps.
    pub open spec fn wf(&self) -> bool {
        self@.wf()
    }

    /// The session of a connection just accepted.
    pub fn new() -> (session: Session)
        ensures
            session.wf(),
            session@ == SessionView::initial(),
    {
        Session { state: State::Initial, envelope: Envelope::new() }
    }

    /// The current state.
    pub fn state(&self) -> (state: State)
        ensures
            state == self@.state,
    {
        self.state
    }

    /// The envelope of the message in progress.
    pub fn envelope(&self) -> (envelope: &Envelope)
        ensures
            envelope@ == self@.envelope,
    {
        &self.envelope
    }

    /// Whether the session has ended.
    pub fn is_closed(&self) -> (closed: bool)
        ensures
            closed == (self@.state == State::Closed),
    {
        self.state == State::Closed
    }

    /// Applies one parsed command outside the body phase.
    pub fn apply(&mut self, command: &Command) -> (outcome: Outcome)
        requires
            old(self).wf(),
            old(self)@.state != State::ReceivingBody,
            old(self)@.state != State::Closed,
        ensures
            final(self).wf(),
            final(self)@ == old(self)@.apply(command@).0,
            outcome@ == old(self)@.apply(command@).1,
            outcome@.reply matches Some(reply) && reply.well_formed(),
    {
        let address: &str = extract_address(command.argument);
        let has_address: bool = !address.is_empty();
        if command.verb == Verb::Quit {
            self.envelope.clear();
            self.state = State::Closed;
            Outcome::reply(Reply::bye())
        } else if self.state == State::Initial {
            if command.verb == Verb::Greet {
                self.state = State::Greeted;
                Outcome::reply(Reply::hello())
            } else {
                Outcome::reply(Reply::syntax_error())
            }
        } else if self.state == State::Greeted && command.verb == Verb::SetSender && has_address {
            self.envelope.set_sender(address.to_owned());
            self.state = State::SenderSet;
            Outcome::reply(Reply::ok())
        } else if (self.state == State::SenderSet || self.state == State::RecipientSet)
            && command.verb == Verb::AddRecipient && has_address {
            self.envelope.add_recipient(address.to_owned());
            self.state = State::RecipientSet;
            Outcome::reply(Reply::ok())
        } else if self.state == State::RecipientSet && command.verb == Verb::BeginBody {
            self.state = State::ReceivingBody;
            Outcome::reply(Reply::start_body())
        } else {
            Outcome::reply(Reply::bad_sequence())
        }
    }

    /// Processes one input line, delimiter already removed.
    pub fn handle_line(&mut self, line: &str) -> (outcome: Outcome)
        requires
            old(self).wf(),
        ensures
            final(self).wf(),
            final(self)@ == old(self)@.step(line@).0,
            outcome@ == old(self)@.step(line@).1,
            outcome@.reply matches Some(reply) ==> reply.well_formed(),
    {
        if self.state == State::Closed {
            Outcome::silent()
        } else if self.state == State::ReceivingBody {
            if equals(line, ".") {
                let delivered: Option<Message> = self.envelope.finalize();
                self.state = State::Greeted;
                Outcome { reply: Some(Reply::accepted()), delivered }
            } else {
                self.envelope.push_body_line(line.to_owned());
                Outcome::silent()
            }
        } else {
            let command: Command = parse_command(line);
            self.apply(&command)
        }
    }

    /// Ends the session when the connection is lost or the stream ends: the
    /// envelope in progress is dropped and nothing is delivered.
    pub fn disconnect(&mut self)
        ensures
            final(self).wf(),
            final(self)@ == SessionView::idle(State::Closed),
    {
        self.envelope.clear();
        self.state = State::Closed;
    }
}

} // verus!
