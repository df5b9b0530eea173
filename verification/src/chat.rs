//! The chat client without its terminal and its socket: what it sends for
//! what the user types, and what it shows for what the server says.

use crate::text::{equals, has_prefix, join_from, join_with, starts_with};
use crate::words::{split_words, words_of};
use vstd::prelude::*;
use vstd::string::StringExecFns;

verus! {

/// What one line typed by the user asks for.
#[derive(Clone, Copy, Debug, PartialEq, Eq, Structural)]
pub enum Input {
    /// Nothing was typed: ask again.
    Skip,
    /// `/quit`: leave the chat.
    Quit,
    /// `/help`: show the commands.
    Help,
    /// Anything else is a message for the server.
    Send,
}

/// How a typed line, white space at both ends already removed, is read.
pub open spec fn input_of(message: Seq<char>) -> Input {
    if message.len() == 0 {
        Input::Skip
    } else if message == "/quit"@ {
        Input::Quit
    } else if message == "/help"@ {
        Input::Help
    } else {
        Input::Send
    }
}

/// The line that introduces the user to the server.
pub open spec fn user_line(username: Seq<char>) -> Seq<char> {
    "USER "@ + username + "\n"@
}

/// The line that carries one message to the server.
pub open spec fn message_line(message: Seq<char>) -> Seq<char> {
    "MSG "@ + message + "\n"@
}

/// The words after the first.
pub open spec fn after_first(words: Seq<Seq<char>>) -> Seq<Seq<char>> {
    if words.len() > 0 {
        words.skip(1)
    } else {
        words
    }
}

/// What is shown for a line from the server: the list of users after
/// `USERLIST`, its words but the first joined by commas; the whole line after
/// a label for `ERROR` and `INFO`; nothing for any other line.
pub open spec fn notice_of(message: Seq<char>) -> Option<Seq<char>> {
    if starts_with(message, "USERLIST"@) {
        Some("\nOnline users: "@ + join_with(after_first(words_of(message)), ", "@))
    } else if starts_with(message, "ERROR"@) {
        Some("Server error: "@ + message)
    } else if starts_with(message, "INFO"@) {
        Some("Server: "@ + message)
    } else {
        None
    }
}

/// Reads one typed line.
pub fn classify(message: &str) -> (input: Input)
    ensures
        input == input_of(message@),
{
    if message.is_empty() {
        Input::Skip
    } else if equals(message, "/quit") {
        Input::Quit
    } else if equals(message, "/help") {
        Input::Help
    } else {
        Input::Send
    }
}

/// Builds the line that introduces the user to the server.
pub fn user_command(username: &str) -> (line: String)
    ensures
        line@ == user_line(username@),
{
    let mut line: String = "USER ".to_owned();
    line.append(username);
    line.append("\n");
    line
}

/// Builds the line that carries one message to the server.
pub fn message_command(message: &str) -> (line: String)
    ensures
        line@ == message_line(message@),
{
    let mut line: String = "MSG ".to_owned();
    line.append(message);
    line.append("\n");
    line
}

/// The line that takes leave of the server.
pub fn quit_command() -> (line: String)
    ensures
        line@ == "QUIT\n"@,
{
    "QUIT\n".to_owned()
}

/// Builds what is shown for one line from the server, if anything.
pub fn notice(message: &str) -> (shown: Option<String>)
    ensures
        shown.deep_view() == notice_of(message@),
{
    if has_prefix(message, "USERLIST") {
        let words: Vec<String> = split_words(message);
        let from: usize = if words.len() > 0 {
            1
        } else {
            0
        };
        proof {
            if from == 0 {
                assert(words.deep_view().skip(0) =~= words.deep_view());
            }
        }
        let users: String = join_from(&words, from, ", ");
        let mut shown: String = "\nOnline users: ".to_owned();
        shown.append(users.as_str());
        Some(shown)
    } else if has_prefix(message, "ERROR") {
        let mut shown: String = "Server error: ".to_owned();
        shown.append(message);
        Some(shown)
    } else if has_prefix(message, "INFO") {
        let mut shown: String = "Server: ".to_owned();
        shown.append(message);
        Some(shown)
    } else {
        None
    }
}

} // verus!
