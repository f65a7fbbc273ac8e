//! The one piece of `String` behaviour used here that vstd does not specify.

use vstd::prelude::*;

verus! {

/// Relies on `alloc::string::String::push`: appending one character to the
/// end of the string, as its documentation states.
pub assume_specification[ String::push ](s: &mut String, ch: char)
    ensures
        final(s)@ == old(s)@.push(ch),
;

} // verus!
