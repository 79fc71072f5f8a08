//! Operations of the standard library on strings whose behaviour is
//! taken from its documentation.

use vstd::prelude::*;

verus! {

/// `String::push`: appends the character to the end of the string. The
/// contract is the documented behaviour of the standard library, taken on
/// trust.
pub assume_specification[ String::push ](s: &mut String, c: char)
    ensures
        final(s)@ == old(s)@.push(c),
;

} // verus!
