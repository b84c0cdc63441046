use vstd::prelude::*;

verus! {

/// Relies on `String::push`: appends one character.
#[verifier::external_body]
fn push_char(s: &mut String, c: char)
    ensures
        final(s)@ == old(s)@.push(c),
{
    s.push(c)
}

/// Relies on `String::pop`: removes and returns the last character, and
/// returns `None` on an empty string.
#[verifier::external_body]
fn pop_char(s: &mut String) -> (r: Option<char>)
    ensures
        old(s)@.len() == 0 ==> r.is_none() && final(s)@ == old(s)@,
        old(s)@.len() > 0 ==> r == Some(old(s)@.last()) && final(s)@ == old(s)@.drop_last(),
{
    s.pop()
}

/// The text of a node after one frame of typing: backspace removes the last
/// character (and the characters typed in that frame are dropped), otherwise
/// the typed characters are appended.
pub open spec fn typed_text(text: Seq<char>, backspace: bool, typed: Seq<char>) -> Seq<char> {
    if backspace {
        if text.len() > 0 {
            text.drop_last()
        } else {
            text
        }
    } else {
        text + typed
    }
}

/// Applies one frame of keyboard input to the text being edited.
pub fn apply_typing(text: &mut String, backspace: bool, typed: &Vec<char>)
    ensures
        final(text)@ == typed_text(old(text)@, backspace, typed@),
{
    if backspace {
        pop_char(text);
        return;
    }
    let ghost start = text@;
    let mut i: usize = 0;
    while i < typed.len()
        invariant
            0 <= i <= typed@.len(),
            text@ == start + typed@.subrange(0, i as int),
        decreases typed@.len() - i,
    {
        push_char(text, typed[i]);
        proof {
            assert(start + typed@.subrange(0, i + 1) =~= (start + typed@.subrange(
                0,
                i as int,
            )).push(typed@[i as int]));
        }
        i = i + 1;
    }
    proof {
        assert(typed@.subrange(0, typed@.len() as int) =~= typed@);
    }
}

} // verus!
