//! The replies of the file-transfer stub: every command is answered from its
//! text alone, and only `QUIT` ends the conversation.

use crate::reply::{Reply, ReplyView};
use crate::text::{equals, has_prefix, starts_with};
use vstd::prelude::*;

verus! {

impl ReplyView {
    /// Sent once when the file-transfer connection is accepted.
    pub open spec fn welcome() -> ReplyView {
        ReplyView { code: 220, text: "Welcome to Rust FTP server"@ }
    }

    /// Answers `USER`.
    pub open spec fn need_password() -> ReplyView {
        ReplyView { code: 331, text: "Username OK, need password"@ }
    }

    /// Answers `PASS`.
    pub open spec fn logged_in() -> ReplyView {
        ReplyView { code: 230, text: "User logged in"@ }
    }

    /// Answers `QUIT` on the file-transfer connection.
    pub open spec fn goodbye() -> ReplyView {
        ReplyView { code: 221, text: "Goodbye"@ }
    }

    /// Answers every other command.
    pub open spec fn not_implemented() -> ReplyView {
        ReplyView { code: 502, text: "Command not implemented"@ }
    }
}

impl Reply {
    /// The reply sent once when the file-transfer connection is accepted.
    pub fn welcome() -> (r: Reply)
        ensures
            r@ == ReplyView::welcome(),
    {
        Reply::new(220, "Welcome to Rust FTP server")
    }
}

/// What one command asks of the connection.
#[derive(Debug)]
pub struct Response {
    /// The reply to write to the peer.
    pub reply: Reply,
    /// Whether the connection is to be closed once the reply is written.
    pub close: bool,
}

/// The mathematical content of a `Response`.
pub ghost struct ResponseView {
    pub reply: ReplyView,
    pub close: bool,
}

impl View for Response {
    type V = ResponseView;

    open spec fn view(&self) -> ResponseView {
        ResponseView { reply: self.reply@, close: self.close }
    }
}

/// How a command is answered. A line that begins with `USER` asks for the
/// password, one that begins with `PASS` logs in, the line `QUIT` says
/// goodbye and closes; anything else is not implemented. Keywords are in
/// upper case.
pub open spec fn response_to(command: Seq<char>) -> ResponseView {
    if starts_with(command, "USER"@) {
        ResponseView { reply: ReplyView::need_password(), close: false }
    } else if starts_with(command, "PASS"@) {
        ResponseView { reply: ReplyView::logged_in(), close: false }
    } else if command == "QUIT"@ {
        ResponseView { reply: ReplyView::goodbye(), close: true }
    } else {
        ResponseView { reply: ReplyView::not_implemented(), close: false }
    }
}

/// Answers one command line, delimiter already removed.
pub fn respond(command: &str) -> (response: Response)
    ensures
        response@ == response_to(command@),
        response@.reply.well_formed(),
        response.close <==> command@ == "QUIT"@,
{
    proof {
        reveal_strlit("USER");
        reveal_strlit("PASS");
        reveal_strlit("QUIT");
        if command@ == "QUIT"@ {
            assert(command@[0] == 'Q');
        }
    }
    if has_prefix(command, "USER") {
        Response { reply: Reply::new(331, "Username OK, need password"), close: false }
    } else if has_prefix(command, "PASS") {
        Response { reply: Reply::new(230, "User logged in"), close: false }
    } else if equals(command, "QUIT") {
        Response { reply: Reply::new(221, "Goodbye"), close: true }
    } else {
        Response { reply: Reply::new(502, "Command not implemented"), close: false }
    }
}

} // verus!
