//! Building strings one character at a time.

use vstd::prelude::*;

verus! {

/// Appends a character to the end of a string, by `String::push` of the
/// standard library.
#[verifier::external_body]
pub(crate) fn push_char(text: &mut String, c: char)
    ensures
        final(text)@ == old(text)@.push(c),
{
    text.push(c)
}

/// Appends the characters of a list to a string, in order.
pub(crate) fn push_chars(text: &mut String, chars: &Vec<char>)
    ensures
        final(text)@ == old(text)@ + chars@,
{
    let mut i: usize = 0;
    while i < chars.len()
        invariant
            i <= chars.len(),
            text@ == old(text)@ + chars@.subrange(0, i as int),
        decreases chars.len() - i,
    {
        push_char(text, chars[i]);
        assert(text@ =~= old(text)@ + chars@.subrange(0, i + 1));
        i = i + 1;
    }
    assert(chars@.subrange(0, chars.len() as int) =~= chars@);
}

} // verus!
