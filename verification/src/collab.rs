//! Portable fallbacks for the effectful external collaborators.
//!
//! The clipboard and the dictionary look-up are host services, not part of
//! the core; on a host that lacks them the design asks that they degrade to
//! no-ops rather than errors.  These functions are those no-op fallbacks: a
//! shell on a capable host substitutes its own effectful implementations
//! and consumes the `session::Action` values instead.

use vstd::prelude::*;

verus! {

/// Copy `text` to the host clipboard: the portable fallback does nothing,
/// and the core never observes a return value.
pub fn copy_to_clipboard(text: &str) {
    let _ = text;
}

/// Open the host dictionary on `text`: the portable fallback does nothing.
pub fn look_up_word(text: &str) {
    let _ = text;
}

/// Read the host clipboard: the portable fallback has nothing available and
/// returns the empty string.
pub fn paste_from_clipboard() -> (r: String)
    ensures
        r@ == Seq::<char>::empty(),
{
    String::new()
}

} // verus!
