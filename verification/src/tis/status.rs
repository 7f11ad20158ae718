//! Status codes of the mutating operating-system calls.

use crate::text::{push_char, push_chars};
use core_foundation::base::OSStatus;
use vstd::prelude::*;

verus! {

/// The raw, nonzero status code of a failed operating-system call.
#[derive(Debug, Clone, Copy, PartialEq, Eq, Structural)]
pub struct OSStatusError(pub OSStatus);

/// The character of a decimal digit.
pub open spec fn digit_char(digit: int) -> char {
    if digit == 0 {
        '0'
    } else if digit == 1 {
        '1'
    } else if digit == 2 {
        '2'
    } else if digit == 3 {
        '3'
    } else if digit == 4 {
        '4'
    } else if digit == 5 {
        '5'
    } else if digit == 6 {
        '6'
    } else if digit == 7 {
        '7'
    } else if digit == 8 {
        '8'
    } else {
        '9'
    }
}

/// The decimal digits of a natural number, without leading zeros.
pub open spec fn digits(n: nat) -> Seq<char>
    decreases n,
{
    if n < 10 {
        seq![digit_char(n as int)]
    } else {
        digits(n / 10).push(digit_char((n % 10) as int))
    }
}

/// A number in decimal, with a minus sign in front where it is negative.
pub open spec fn decimal(n: int) -> Seq<char> {
    if n < 0 {
        seq!['-'] + digits((-n) as nat)
    } else {
        digits(n as nat)
    }
}

/// What the message of an error says: a fixed opening, then the code in
/// decimal.
pub open spec fn message_text(code: OSStatus) -> Seq<char> {
    "OSStatus error: "@ + decimal(code as int)
}

/// The character of a decimal digit.
fn digit_to_char(digit: u64) -> (c: char)
    requires
        digit < 10,
    ensures
        c == digit_char(digit as int),
{
    if digit == 0 {
        '0'
    } else if digit == 1 {
        '1'
    } else if digit == 2 {
        '2'
    } else if digit == 3 {
        '3'
    } else if digit == 4 {
        '4'
    } else if digit == 5 {
        '5'
    } else if digit == 6 {
        '6'
    } else if digit == 7 {
        '7'
    } else if digit == 8 {
        '8'
    } else {
        '9'
    }
}

/// The decimal digits of a number, the last one first.
fn digits_backwards(n: u64) -> (back: Vec<char>)
    ensures
        back@.reverse() == digits(n as nat),
{
    let mut back: Vec<char> = Vec::new();
    let mut rest: u64 = n;
    while rest >= 10
        invariant
            digits(n as nat) == digits(rest as nat) + back@.reverse(),
        decreases rest,
    {
        let c = digit_to_char(rest % 10);
        let ghost before = back@;
        back.push(c);
        assert(back@.reverse() =~= seq![c] + before.reverse());
        assert(digits(rest as nat) == digits((rest / 10) as nat).push(c));
        assert(digits(n as nat) =~= digits((rest / 10) as nat) + back@.reverse());
        rest = rest / 10;
    }
    let c = digit_to_char(rest);
    let ghost before = back@;
    back.push(c);
    assert(back@.reverse() =~= seq![c] + before.reverse());
    assert(digits(n as nat) =~= back@.reverse());
    back
}

impl OSStatusError {
    /// The status code as the operating system returned it.
    pub fn code(&self) -> (code: OSStatus)
        ensures
            code == self.0,
    {
        self.0
    }

    /// The error in words: `OSStatus error: ` and the code in decimal.
    pub fn message(&self) -> (text: String)
        ensures
            text@ == message_text(self.0),
    {
        let mut text = String::from_str("OSStatus error: ");
        let wide: i64 = self.0 as i64;
        let size: u64 = if wide < 0 {
            push_char(&mut text, '-');
            (-wide) as u64
        } else {
            wide as u64
        };
        let mut back = digits_backwards(size);
        let ghost all = back@;
        let mut forth: Vec<char> = Vec::new();
        while back.len() > 0
            invariant
                back@.len() + forth@.len() == all.len(),
                back@ == all.subrange(0, back@.len() as int),
                forall|i: int| 0 <= i < forth@.len() ==> forth@[i] == all[all.len() - 1 - i],
            decreases back.len(),
        {
            let c = back.pop().unwrap();
            forth.push(c);
        }
        assert(forth@ =~= all.reverse());
        push_chars(&mut text, &forth);
        assert(text@ =~= message_text(self.0));
        text
    }
}

/// What a status code means: zero is success, every other value is the
/// error that carries it unchanged.
pub open spec fn status_outcome(status: OSStatus) -> Result<(), OSStatusError> {
    if status == 0 {
        Ok(())
    } else {
        Err(OSStatusError(status))
    }
}

/// Turns the status code of a mutating call into a result.
pub fn wrap_osstatus(status: OSStatus) -> (outcome: Result<(), OSStatusError>)
    ensures
        outcome == status_outcome(status),
        outcome.is_ok() <==> status == 0,
        outcome.is_err() ==> outcome.unwrap_err().0 == status,
{
    if status == 0 {
        Ok(())
    } else {
        Err(OSStatusError(status))
    }
}

} // verus!
