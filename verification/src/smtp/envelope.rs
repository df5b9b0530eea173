//! The envelope in progress: sender, recipients and body lines of the message
//! that a session is receiving, and the finished message handed off.

use crate::text::{join, join_lines};
use vstd::prelude::*;

verus! {

/// A finished message, as it is handed off for delivery.
#[derive(Clone, Debug, PartialEq, Eq)]
pub struct Message {
    pub sender: String,
    pub recipients: Vec<String>,
    /// The body lines joined by line feeds.
    pub body: String,
}

/// The mathematical content of a `Message`.
pub ghost struct MessageView {
    pub sender: Seq<char>,
    pub recipients: Seq<Seq<char>>,
    pub body: Seq<char>,
}

impl View for Message {
    type V = MessageView;

    open spec fn view(&self) -> MessageView {
        MessageView {
            sender: self.sender@,
            recipients: self.recipients.deep_view(),
            body: self.body@,
        }
    }
}

impl DeepView for Message {
    type V = MessageView;

    open spec fn deep_view(&self) -> MessageView {
        self@
    }
}

/// The sender, recipients and body lines gathered so far.
#[derive(Debug)]
pub struct Envelope {
    sender: Option<String>,
    recipients: Vec<String>,
    body: Vec<String>,
}

/// The mathematical content of an `Envelope`.
pub ghost struct EnvelopeView {
    pub sender: Option<Seq<char>>,
    /// In the order in which they were added; a recipient may occur twice.
    pub recipients: Seq<Seq<char>>,
    /// In the order in which they arrived.
    pub body: Seq<Seq<char>>,
}

impl EnvelopeView {
    /// Nothing gathered.
    pub open spec fn empty() -> EnvelopeView {
        EnvelopeView { sender: None, recipients: Seq::empty(), body: Seq::empty() }
    }

    /// The same envelope with `address` as its sender.
    pub open spec fn with_sender(self, address: Seq<char>) -> EnvelopeView {
        EnvelopeView { sender: Some(address), ..self }
    }

    /// The same envelope with `address` after the recipients it had.
    pub open spec fn with_recipient(self, address: Seq<char>) -> EnvelopeView {
        EnvelopeView { recipients: self.recipients.push(address), ..self }
    }

    /// The same envelope with `line` after the body lines it had.
    pub open spec fn with_body_line(self, line: Seq<char>) -> EnvelopeView {
        EnvelopeView { body: self.body.push(line), ..self }
    }

    /// The message that this envelope makes: none without a sender.
    pub open spec fn snapshot(self) -> Option<MessageView> {
        match self.sender {
            Some(sender) => Some(
                MessageView {
                    sender,
                    recipients: self.recipients,
                    body: join_lines(self.body),
                },
            ),
            None => None,
        }
    }
}

impl View for Envelope {
    type V = EnvelopeView;

    closed spec fn view(&self) -> EnvelopeView {
        EnvelopeView {
            sender: self.sender.deep_view(),
            recipients: self.recipients.deep_view(),
            body: self.body.deep_view(),
        }
    }
}

impl Envelope {
    /// The view is empty exactly when all three parts are.
    proof fn lemma_empty(&self)
        ensures
            self@ == EnvelopeView::empty() <==> (self.sender is None && self.recipients@.len() == 0
                && self.body@.len() == 0),
    {
        if self.sender is None && self.recipients@.len() == 0 && self.body@.len() == 0 {
            assert(self@.recipients =~= Seq::<Seq<char>>::empty());
            assert(self@.body =~= Seq::<Seq<char>>::empty());
        }
        if self@ == EnvelopeView::empty() {
            assert(self.recipients.deep_view().len() == 0);
            assert(self.body.deep_view().len() == 0);
        }
    }

    /// An envelope with nothing in it.
    pub fn new() -> (envelope: Envelope)
        ensures
            envelope@ == EnvelopeView::empty(),
    {
        let envelope = Envelope { sender: None, recipients: Vec::new(), body: Vec::new() };
        proof {
            envelope.lemma_empty();
        }
        envelope
    }

    /// Records the sender, in place of any sender recorded before.
    pub fn set_sender(&mut self, address: String)
        ensures
            final(self)@ == old(self)@.with_sender(address@),
    {
        self.sender = Some(address);
    }

    /// Adds one recipient after those already there.
    pub fn add_recipient(&mut self, address: String)
        ensures
            final(self)@ == old(self)@.with_recipient(address@),
    {
        self.recipients.push(address);
        assert(self.recipients.deep_view() =~= old(self).recipients.deep_view().push(address@));
    }

    /// Adds one body line after those already there.
    pub fn push_body_line(&mut self, line: String)
        ensures
            final(self)@ == old(self)@.with_body_line(line@),
    {
        self.body.push(line);
        assert(self.body.deep_view() =~= old(self).body.deep_view().push(line@));
    }

    /// Drops everything gathered.
    pub fn clear(&mut self)
        ensures
            final(self)@ == EnvelopeView::empty(),
    {
        self.sender = None;
        self.recipients.clear();
        self.body.clear();
        proof {
            self.lemma_empty();
        }
    }

    /// Hands out the message gathered and leaves the envelope empty, in one
    /// step. Without a sender there is no message; the envelope is emptied
    /// all the same.
    pub fn finalize(&mut self) -> (message: Option<Message>)
        ensures
            final(self)@ == EnvelopeView::empty(),
            message.deep_view() == old(self)@.snapshot(),
    {
        let body: String = join(&self.body);
        let sender: Option<String> = self.sender.take();
        let mut recipients: Vec<String> = Vec::new();
        core::mem::swap(&mut self.recipients, &mut recipients);
        self.body.clear();
        proof {
            self.lemma_empty();
        }
        match sender {
            Some(sender) => Some(Message { sender, recipients, body }),
            None => None,
        }
    }

    /// The sender, if one was recorded.
    pub fn sender(&self) -> (sender: &Option<String>)
        ensures
            sender.deep_view() == self@.sender,
    {
        &self.sender
    }

    /// The recipients, in the order in which they were added.
    pub fn recipients(&self) -> (recipients: &Vec<String>)
        ensures
            recipients.deep_view() == self@.recipients,
    {
        &self.recipients
    }

    /// The body lines, in the order in which they arrived.
    pub fn body_lines(&self) -> (lines: &Vec<String>)
        ensures
            lines.deep_view() == self@.body,
    {
        &self.body
    }

    /// Whether nothing has been gathered.
    pub fn is_empty(&self) -> (empty: bool)
        ensures
            empty == (self@ == EnvelopeView::empty()),
    {
        let empty: bool = self.sender.is_none() && self.recipients.len() == 0
            && self.body.len() == 0;
        proof {
            self.lemma_empty();
        }
        empty
    }
}

} // verus!
