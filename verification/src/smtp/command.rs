//! Commands: one input line read as a verb and its raw argument.

use crate::text::{
    eq_ignore_case, equals_ignore_case, has_prefix_ignore_case, starts_with_ignore_case,
    tail_from,
};
use vstd::prelude::*;
use vstd::string::StrSliceExecFns;

verus! {

/// The keyword that a command line opens with.
#[derive(Clone, Copy, Debug, PartialEq, Eq, Structural)]
pub enum Verb {
    /// `HELO` or `EHLO`: the client introduces itself.
    Greet,
    /// `MAIL FROM:`: names the originator of a message.
    SetSender,
    /// `RCPT TO:`: names one more recipient.
    AddRecipient,
    /// `DATA`: asks to send the body.
    BeginBody,
    /// `QUIT`: asks to end the session.
    Quit,
    /// Anything else.
    Unknown,
}

/// One line read as a command. It borrows the argument from the line.
#[derive(Clone, Copy, Debug, PartialEq, Eq)]
pub struct Command<'a> {
    pub verb: Verb,
    /// What follows the keyword, untouched. For `Verb::Unknown`, the whole line.
    pub argument: &'a str,
}

/// The mathematical content of a `Command`.
pub ghost struct CommandView {
    pub verb: Verb,
    pub argument: Seq<char>,
}

impl<'a> View for Command<'a> {
    type V = CommandView;

    open spec fn view(&self) -> CommandView {
        CommandView { verb: self.verb, argument: self.argument@ }
    }
}

/// How a line is read. Keywords match without regard to ASCII case. `HELO`,
/// `EHLO`, `MAIL FROM:` and `RCPT TO:` open a line and the rest of the line is
/// their argument; `DATA` and `QUIT` are the whole line.
pub open spec fn parse(line: Seq<char>) -> CommandView {
    if starts_with_ignore_case(line, "HELO"@) || starts_with_ignore_case(line, "EHLO"@) {
        CommandView { verb: Verb::Greet, argument: line.skip("HELO"@.len() as int) }
    } else if starts_with_ignore_case(line, "MAIL FROM:"@) {
        CommandView { verb: Verb::SetSender, argument: line.skip("MAIL FROM:"@.len() as int) }
    } else if starts_with_ignore_case(line, "RCPT TO:"@) {
        CommandView { verb: Verb::AddRecipient, argument: line.skip("RCPT TO:"@.len() as int) }
    } else if eq_ignore_case(line, "DATA"@) {
        CommandView { verb: Verb::BeginBody, argument: Seq::empty() }
    } else if eq_ignore_case(line, "QUIT"@) {
        CommandView { verb: Verb::Quit, argument: Seq::empty() }
    } else {
        CommandView { verb: Verb::Unknown, argument: line }
    }
}

/// The address in the argument of `MAIL FROM:` or `RCPT TO:`: the argument
/// without one leading `<`, if it has one, and then without one trailing `>`,
/// if it has one. Nothing else is removed.
pub open spec fn address_of(argument: Seq<char>) -> Seq<char> {
    let opened = if argument.len() > 0 && argument[0] == '<' {
        argument.skip(1)
    } else {
        argument
    };
    if opened.len() > 0 && opened.last() == '>' {
        opened.drop_last()
    } else {
        opened
    }
}

/// The line that names `address` as a recipient in the usual form.
pub open spec fn recipient_line(address: Seq<char>) -> Seq<char> {
    "RCPT TO:<"@ + address + ">"@
}

/// The line that names `address` as the sender in the usual form.
pub open spec fn sender_line(address: Seq<char>) -> Seq<char> {
    "MAIL FROM:<"@ + address + ">"@
}

/// An address written between angle brackets after `RCPT TO:` is read back
/// unchanged, whatever characters it holds.
pub proof fn lemma_recipient_line_reads_back(address: Seq<char>)
    ensures
        parse(recipient_line(address)).verb == Verb::AddRecipient,
        address_of(parse(recipient_line(address)).argument) == address,
{
    reveal_strlit("RCPT TO:<");
    reveal_strlit(">");
    reveal_strlit("HELO");
    reveal_strlit("EHLO");
    reveal_strlit("MAIL FROM:");
    reveal_strlit("RCPT TO:");
    let line = recipient_line(address);
    assert(line[0] == 'R');
    assert(!starts_with_ignore_case(line, "HELO"@));
    assert(!starts_with_ignore_case(line, "EHLO"@));
    assert(!starts_with_ignore_case(line, "MAIL FROM:"@));
    assert(starts_with_ignore_case(line, "RCPT TO:"@));
    let argument = line.skip(8);
    assert(argument =~= seq!['<'] + address + seq!['>']);
    assert(argument.skip(1) =~= address + seq!['>']);
    assert((address + seq!['>']).drop_last() =~= address);
}

/// An address written between angle brackets after `MAIL FROM:` is read back
/// unchanged, whatever characters it holds.
pub proof fn lemma_sender_line_reads_back(address: Seq<char>)
    ensures
        parse(sender_line(address)).verb == Verb::SetSender,
        address_of(parse(sender_line(address)).argument) == address,
{
    reveal_strlit("MAIL FROM:<");
    reveal_strlit(">");
    reveal_strlit("HELO");
    reveal_strlit("EHLO");
    reveal_strlit("MAIL FROM:");
    let line = sender_line(address);
    assert(line[0] == 'M');
    assert(!starts_with_ignore_case(line, "HELO"@));
    assert(!starts_with_ignore_case(line, "EHLO"@));
    assert(starts_with_ignore_case(line, "MAIL FROM:"@));
    let argument = line.skip(10);
    assert(argument =~= seq!['<'] + address + seq!['>']);
    assert(argument.skip(1) =~= address + seq!['>']);
    assert((address + seq!['>']).drop_last() =~= address);
}

/// Reads one line as a command.
pub fn parse_command<'a>(line: &'a str) -> (command: Command<'a>)
    ensures
        command@ == parse(line@),
{
    proof {
        reveal_strlit("HELO");
        reveal_strlit("EHLO");
        reveal_strlit("MAIL FROM:");
        reveal_strlit("RCPT TO:");
        reveal_strlit("DATA");
        reveal_strlit("QUIT");
        reveal_strlit("");
        assert(""@ =~= Seq::<char>::empty());
    }
    if has_prefix_ignore_case(line, "HELO") || has_prefix_ignore_case(line, "EHLO") {
        Command { verb: Verb::Greet, argument: tail_from(line, 4) }
    } else if has_prefix_ignore_case(line, "MAIL FROM:") {
        Command { verb: Verb::SetSender, argument: tail_from(line, 10) }
    } else if has_prefix_ignore_case(line, "RCPT TO:") {
        Command { verb: Verb::AddRecipient, argument: tail_from(line, 8) }
    } else if equals_ignore_case(line, "DATA") {
        Command { verb: Verb::BeginBody, argument: "" }
    } else if equals_ignore_case(line, "QUIT") {
        Command { verb: Verb::Quit, argument: "" }
    } else {
        Command { verb: Verb::Unknown, argument: line }
    }
}

/// Takes the address out of the argument of `MAIL FROM:` or `RCPT TO:`.
pub fn extract_address<'a>(argument: &'a str) -> (address: &'a str)
    ensures
        address@ == address_of(argument@),
{
    let n: usize = argument.unicode_len();
    let from: usize = if n > 0 && argument.get_char(0) == '<' {
        1
    } else {
        0
    };
    let to: usize = if n > from && argument.get_char(n - 1) == '>' {
        n - 1
    } else {
        n
    };
    let address: &str = argument.substring_char(from, to);
    proof {
        assert(address@ =~= address_of(argument@));
    }
    address
}

} // verus!
