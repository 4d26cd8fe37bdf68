//! Contracts for the two `String` editing operations the crate uses and
//! that vstd leaves unspecified.

use vstd::prelude::*;

verus! {

/// Relies on `String::push`: appends the character to the end of the string
/// (std documents it as "Appends the given char to the end of this String").
pub assume_specification[ String::push ](s: &mut String, ch: char)
    ensures
        final(s)@ == old(s)@.push(ch),
;

/// Relies on `String::pop`: removes and returns the last character, or
/// returns `None` when the string is empty (std documents it as "Removes the
/// last character from the string buffer and returns it").
pub assume_specification[ String::pop ](s: &mut String) -> (r: Option<char>)
    ensures
        old(s)@.len() == 0 ==> r is None && final(s)@ == old(s)@,
        old(s)@.len() > 0 ==> r == Some(old(s)@.last()) && final(s)@ == old(s)@.drop_last(),
;

} // verus!
