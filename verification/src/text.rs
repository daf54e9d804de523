//! What this crate takes on trust about `String`.

use vstd::prelude::*;

verus! {

/// `String::push` puts one character at the end of the text and leaves the
/// rest as it was.
pub assume_specification[ String::push ](text: &mut String, c: char)
    ensures
        final(text)@ == old(text)@.push(c),
;

} // verus!
