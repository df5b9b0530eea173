//! Replies of the line protocols: a three-digit status code and one line of
//! text.

use vstd::prelude::*;
use vstd::string::StringExecFns;

verus! {

/// What the server answers to one command.
#[derive(Clone, Debug, PartialEq, Eq)]
pub struct Reply {
    pub code: u16,
    pub text: String,
}

/// The mathematical content of a `Reply`.
pub ghost struct ReplyView {
    pub code: u16,
    pub text: Seq<char>,
}

impl View for Reply {
    type V = ReplyView;

    open spec fn view(&self) -> ReplyView {
        ReplyView { code: self.code, text: self.text@ }
    }
}

impl DeepView for Reply {
    type V = ReplyView;

    open spec fn deep_view(&self) -> ReplyView {
        self@
    }
}

/// The decimal digit `d` as a character.
pub open spec fn digit_char(d: int) -> char {
    (48 + d) as char
}

impl ReplyView {
    /// A status code has exactly three decimal digits.
    pub open spec fn well_formed(self) -> bool {
        100 <= self.code <= 999
    }

    /// The reply as it goes over the wire: the three digits of the code, one
    /// space, the text, and the line delimiter (carriage return, line feed).
    pub open spec fn wire(self) -> Seq<char> {
        seq![
            digit_char(self.code as int / 100),
            digit_char((self.code as int / 10) % 10),
            digit_char(self.code as int % 10),
            ' ',
        ] + self.text + seq!['\r', '\n']
    }
}

/// The decimal digit `d` as a one-character string.
fn digit_str(d: u16) -> (s: &'static str)
    requires
        d <= 9,
    ensures
        s@ == seq![digit_char(d as int)],
{
    proof {
        reveal_strlit("0");
        reveal_strlit("1");
        reveal_strlit("2");
        reveal_strlit("3");
        reveal_strlit("4");
        reveal_strlit("5");
        reveal_strlit("6");
        reveal_strlit("7");
        reveal_strlit("8");
        reveal_strlit("9");
    }
    let s: &'static str = match d {
        0 => "0",
        1 => "1",
        2 => "2",
        3 => "3",
        4 => "4",
        5 => "5",
        6 => "6",
        7 => "7",
        8 => "8",
        _ => "9",
    };
    assert(s@ =~= seq![digit_char(d as int)]);
    s
}

impl Reply {
    /// A reply with this code and text.
    pub fn new(code: u16, text: &str) -> (r: Reply)
        ensures
            r@ == (ReplyView { code, text: text@ }),
    {
        Reply { code, text: text.to_owned() }
    }

    /// The line to write to the peer, delimiter included.
    pub fn wire_line(&self) -> (line: String)
        requires
            self@.well_formed(),
        ensures
            line@ == self@.wire(),
    {
        let mut line: String = String::new();
        line.append(digit_str(self.code / 100));
        line.append(digit_str((self.code / 10) % 10));
        line.append(digit_str(self.code % 10));
        line.append(" ");
        line.append(self.text.as_str());
        line.append("\r\n");
        proof {
            reveal_strlit(" ");
            reveal_strlit("\r\n");
            assert(" "@ =~= seq![' ']);
            assert("\r\n"@ =~= seq!['\r', '\n']);
            assert(line@ =~= self@.wire());
        }
        line
    }
}

} // verus!
