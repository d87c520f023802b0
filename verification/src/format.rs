//! The text of an error stack with its causes.

use vstd::prelude::*;
use vstd::string::StringExecFns;

verus! {

/// The character of the decimal digit `d`.
pub open spec fn digit(d: nat) -> char
    recommends
        d < 10,
{
    if d == 0 {
        '0'
    } else if d == 1 {
        '1'
    } else if d == 2 {
        '2'
    } else if d == 3 {
        '3'
    } else if d == 4 {
        '4'
    } else if d == 5 {
        '5'
    } else if d == 6 {
        '6'
    } else if d == 7 {
        '7'
    } else if d == 8 {
        '8'
    } else {
        '9'
    }
}

/// The number `n` written in decimal, without leading zeros.
pub open spec fn decimal(n: nat) -> Seq<char>
    decreases n,
{
    if n < 10 {
        seq![digit(n)]
    } else {
        decimal(n / 10) + seq![digit(n % 10)]
    }
}

/// The line for the cause with the number `index` and the message `message`:
/// a line break, four spaces, the number, a colon, a space and the message.
pub open spec fn cause_line(index: nat, message: Seq<char>) -> Seq<char> {
    "\n    "@ + decimal(index) + ": "@ + message
}

/// The lines for the first `count` causes of the stack with the messages
/// `messages`, numbered from 0. The cause with the number `k` is the one with
/// the message `messages[k + 1]`.
pub open spec fn cause_lines(messages: Seq<Seq<char>>, count: nat) -> Seq<char>
    decreases count,
{
    if count == 0 {
        Seq::empty()
    } else {
        cause_lines(messages, (count - 1) as nat) + cause_line(
            (count - 1) as nat,
            messages[count as int],
        )
    }
}

/// The text of the stack with the messages `messages`, causes included: the
/// top message, and where there are causes, an empty line, the line
/// `Caused by:` and one line for each cause.
pub open spec fn debug_text(messages: Seq<Seq<char>>) -> Seq<char>
    recommends
        messages.len() > 0,
{
    if messages.len() <= 1 {
        messages[0]
    } else {
        messages[0] + "\n\nCaused by:"@ + cause_lines(messages, (messages.len() - 1) as nat)
    }
}

/// The decimal digit `d` as a string.
fn digit_str(d: usize) -> (text: &'static str)
    requires
        d < 10,
    ensures
        text@ == seq![digit(d as nat)],
{
    proof {
        reveal_strlit("0");
        reveal_strlit("1");
        reveal_strlit("2");
        reveal_strlit("3");
        reveal_strlit("4");
        reveal_strlit("5");
        reveal_strlit("6");
        reveal_strlit("7");
        reveal_strlit("8");
        reveal_strlit("9");
    }
    if d == 0 {
        "0"
    } else if d == 1 {
        "1"
    } else if d == 2 {
        "2"
    } else if d == 3 {
        "3"
    } else if d == 4 {
        "4"
    } else if d == 5 {
        "5"
    } else if d == 6 {
        "6"
    } else if d == 7 {
        "7"
    } else if d == 8 {
        "8"
    } else {
        "9"
    }
}

/// Appends `n`, written in decimal, to `out`.
pub fn push_decimal(out: &mut String, n: usize)
    ensures
        final(out)@ == old(out)@ + decimal(n as nat),
    decreases n,
{
    if n >= 10 {
        push_decimal(out, n / 10);
    }
    out.append(digit_str(n % 10));
    assert(out@ =~= old(out)@ + decimal(n as nat));
}

/// The text of a stack with the given messages, causes included: see
/// [`debug_text`]. `None` where there is no message.
pub fn debug_string_of(messages: &Vec<&str>) -> (text: Option<String>)
    ensures
        text is None <==> messages@.len() == 0,
        text matches Some(text) ==> text@ == debug_text(
            Seq::new(messages@.len(), |i: int| messages@[i]@),
        ),
{
    if messages.len() == 0 {
        return None;
    }
    let ghost all = Seq::new(messages@.len(), |i: int| messages@[i]@);
    let mut text = String::from_str(messages[0]);
    if messages.len() > 1 {
        text.append("\n\nCaused by:");
        let mut i: usize = 1;
        while i < messages.len()
            invariant
                1 <= i <= messages@.len(),
                all == Seq::new(messages@.len(), |i: int| messages@[i]@),
                text@ == all[0] + "\n\nCaused by:"@ + cause_lines(all, (i - 1) as nat),
            decreases messages@.len() - i,
        {
            text.append("\n    ");
            push_decimal(&mut text, i - 1);
            text.append(": ");
            text.append(messages[i]);
            i += 1;
        }
    }
    Some(text)
}

} // verus!
