use vstd::prelude::*;
use crate::state::State;
use crate::text::{push_char, push_str};

verus! {

/// The decimal digit for `d`, which is below ten.
pub open spec fn digit_char(d: nat) -> char {
    if d == 0 { '0' }
    else if d == 1 { '1' }
    else if d == 2 { '2' }
    else if d == 3 { '3' }
    else if d == 4 { '4' }
    else if d == 5 { '5' }
    else if d == 6 { '6' }
    else if d == 7 { '7' }
    else if d == 8 { '8' }
    else { '9' }
}

/// `n` written in decimal, with no leading zero.
pub open spec fn decimal(n: nat) -> Seq<char>
    decreases n,
{
    if n < 10 {
        seq![digit_char(n)]
    } else {
        decimal(n / 10).push(digit_char(n % 10))
    }
}

/// The text shown for the message at `index`: its index, a colon and a
/// space, then the message.
pub open spec fn numbered(index: nat, message: Seq<char>) -> Seq<char> {
    decimal(index) + seq![':', ' '] + message
}

fn digit(d: usize) -> (r: char)
    requires
        d < 10,
    ensures
        r == digit_char(d as nat),
{
    if d == 0 { '0' }
    else if d == 1 { '1' }
    else if d == 2 { '2' }
    else if d == 3 { '3' }
    else if d == 4 { '4' }
    else if d == 5 { '5' }
    else if d == 6 { '6' }
    else if d == 7 { '7' }
    else if d == 8 { '8' }
    else { '9' }
}

/// Appends `n` in decimal to `out`.
pub fn push_decimal(out: &mut String, n: usize)
    ensures
        final(out)@ == old(out)@ + decimal(n as nat),
    decreases n,
{
    if n >= 10 {
        push_decimal(out, n / 10);
    }
    push_char(out, digit(n % 10));
    assert(final(out)@ =~= old(out)@ + decimal(n as nat));
}

/// The line shown for the message at `index`.
pub fn numbered_line(index: usize, message: &str) -> (r: String)
    ensures
        r@ == numbered(index as nat, message@),
{
    let mut line = String::new();
    push_decimal(&mut line, index);
    push_char(&mut line, ':');
    push_char(&mut line, ' ');
    push_str(&mut line, message);
    assert(line@ =~= numbered(index as nat, message@));
    line
}

impl State {
    /// One line per committed message, in the order they were entered, each
    /// prefixed with its index from zero.
    pub fn message_lines(&self) -> (r: Vec<String>)
        ensures
            r@.len() == self@.messages.len(),
            forall|i: int|
                0 <= i < r@.len() ==> #[trigger] r@[i]@ == numbered(i as nat, self@.messages[i]),
    {
        let mut lines: Vec<String> = Vec::new();
        let mut i: usize = 0;
        while i < self.messages.len()
            invariant
                i <= self.messages@.len(),
                lines@.len() == i,
                forall|j: int|
                    0 <= j < i ==> #[trigger] lines@[j]@ == numbered(j as nat, self@.messages[j]),
            decreases self.messages@.len() - i,
        {
            let line = numbered_line(i, self.messages[i].as_str());
            lines.push(line);
            i = i + 1;
        }
        lines
    }

    /// The text of the input line.
    pub fn input_text(&self) -> (r: &str)
        ensures
            r@ == self@.input,
    {
        self.input.as_str()
    }
}

/// A piece of the help line, and whether it is shown emphasized.
pub struct HelpSpan {
    pub text: String,
    pub emphasized: bool,
}

/// The help line: "Press Ctrl-D to exit.", with the key combination emphasized.
pub fn help_line() -> (r: Vec<HelpSpan>)
    ensures
        r@.len() == 3,
        r@[0].text@ == "Press "@,
        !r@[0].emphasized,
        r@[1].text@ == "Ctrl-D"@,
        r@[1].emphasized,
        r@[2].text@ == " to exit."@,
        !r@[2].emphasized,
{
    let mut r: Vec<HelpSpan> = Vec::new();
    r.push(HelpSpan { text: "Press ".to_owned(), emphasized: false });
    r.push(HelpSpan { text: "Ctrl-D".to_owned(), emphasized: true });
    r.push(HelpSpan { text: " to exit.".to_owned(), emphasized: false });
    r
}

} // verus!
