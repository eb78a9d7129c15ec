//! Text that can cross to the panel driver: the driver reads C strings, which
//! end at the first NUL.

use vstd::prelude::*;

verus! {

/// Whether `text` can be a C string: no character of it is NUL.
pub open spec fn is_c_text(text: Seq<char>) -> bool {
    forall|i: int| 0 <= i < text.len() ==> text[i] != '\0'
}

/// Tests whether `text` can be a C string.
pub fn holds_no_nul(text: &str) -> (clean: bool)
    ensures
        clean == is_c_text(text@),
{
    broadcast use vstd::string::axiom_spec_iter;

    for c in chars: text.chars()
        invariant
            chars.seq() == text@,
            forall|i: int| 0 <= i < chars.index() ==> text@[i] != '\0',
    {
        if c == '\0' {
            return false;
        }
    }
    true
}

} // verus!
