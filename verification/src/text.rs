//! Specifications for the few `String` operations of std that vstd leaves
//! unspecified.
use vstd::prelude::*;

verus! {

/// `String::push` appends one character at the end of the string, as its
/// documentation states; nothing else of the string changes.
pub assume_specification[ String::push ](s: &mut String, ch: char)
    ensures
        final(s)@ == old(s)@.push(ch),
;

} // verus!
