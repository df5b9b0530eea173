//! The replies of the mail session.

use crate::reply::{Reply, ReplyView};
use vstd::prelude::*;

verus! {

impl ReplyView {
    /// Sent once when the connection is accepted.
    pub open spec fn banner() -> ReplyView {
        ReplyView { code: 220, text: "localhost ESMTP Rust SMTP Server"@ }
    }

    /// Answers the greeting.
    pub open spec fn hello() -> ReplyView {
        ReplyView { code: 250, text: "localhost Hello"@ }
    }

    /// Answers an accepted sender or recipient.
    pub open spec fn ok() -> ReplyView {
        ReplyView { code: 250, text: "OK"@ }
    }

    /// Answers the body terminator: the message was taken over.
    pub open spec fn accepted() -> ReplyView {
        ReplyView { code: 250, text: "OK: Message accepted"@ }
    }

    /// Invites the body.
    pub open spec fn start_body() -> ReplyView {
        ReplyView { code: 354, text: "End data with <CR><LF>.<CR><LF>"@ }
    }

    /// Answers the request to quit.
    pub open spec fn bye() -> ReplyView {
        ReplyView { code: 221, text: "Bye"@ }
    }

    /// Answers a line that is no command the server may take before the greeting.
    pub open spec fn syntax_error() -> ReplyView {
        ReplyView { code: 500, text: "Syntax error, command unrecognized"@ }
    }

    /// Answers a line that is not legal in the current state.
    pub open spec fn bad_sequence() -> ReplyView {
        ReplyView { code: 503, text: "Bad sequence of commands"@ }
    }
}

impl Reply {
    /// The reply sent once when the connection is accepted.
    pub fn banner() -> (r: Reply)
        ensures
            r@ == ReplyView::banner(),
    {
        Reply::new(220, "localhost ESMTP Rust SMTP Server")
    }

    /// The reply to the greeting.
    pub fn hello() -> (r: Reply)
        ensures
            r@ == ReplyView::hello(),
    {
        Reply::new(250, "localhost Hello")
    }

    /// The reply to an accepted sender or recipient.
    pub fn ok() -> (r: Reply)
        ensures
            r@ == ReplyView::ok(),
    {
        Reply::new(250, "OK")
    }

    /// The reply to the body terminator.
    pub fn accepted() -> (r: Reply)
        ensures
            r@ == ReplyView::accepted(),
    {
        Reply::new(250, "OK: Message accepted")
    }

    /// The reply that invites the body.
    pub fn start_body() -> (r: Reply)
        ensures
            r@ == ReplyView::start_body(),
    {
        Reply::new(354, "End data with <CR><LF>.<CR><LF>")
    }

    /// The reply to the request to quit.
    pub fn bye() -> (r: Reply)
        ensures
            r@ == ReplyView::bye(),
    {
        Reply::new(221, "Bye")
    }

    /// The reply to an unrecognised line before the greeting.
    pub fn syntax_error() -> (r: Reply)
        ensures
            r@ == ReplyView::syntax_error(),
    {
        Reply::new(500, "Syntax error, command unrecognized")
    }

    /// The reply to a line that is not legal in the current state.
    pub fn bad_sequence() -> (r: Reply)
        ensures
            r@ == ReplyView::bad_sequence(),
    {
        Reply::new(503, "Bad sequence of commands")
    }
}

} // verus!
