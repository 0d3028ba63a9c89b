//! Key-chord matching: a chord is a logical key plus an exact required
//! modifier combination, and an event matches it only if every modifier
//! state on the event equals the chord's requirement.

use vstd::prelude::*;

verus! {

/// Key code of the Return key (the carriage-return scalar value).
pub const KEY_RETURN: u32 = 13;

/// Key code of the Backspace key.
pub const KEY_BACKSPACE: u32 = 8;

/// Key code of the letter key A (lower-case ASCII value).
pub const KEY_A: u32 = 97;

/// Key code of the letter key I.
pub const KEY_I: u32 = 105;

/// Key code of the letter key L.
pub const KEY_L: u32 = 108;

/// Key code of the letter key V.
pub const KEY_V: u32 = 118;

/// A physical key event: the logical key code and the state of the four
/// modifiers at the moment the key went down.
#[derive(Clone, Copy, Debug, PartialEq, Eq, Structural)]
pub struct KeyEvent {
    pub key: u32,
    pub ctrl: bool,
    pub gui: bool,
    pub shift: bool,
    pub alt: bool,
}

/// A declared key chord: a key code together with the exact modifier
/// combination that must be held for the chord to fire.
#[derive(Clone, Copy, Debug, PartialEq, Eq, Structural)]
pub struct Keymask {
    pub key: u32,
    pub ctrl: bool,
    pub gui: bool,
    pub shift: bool,
    pub alt: bool,
}

/// What it means for an event to match a chord: the key codes are equal and
/// each of the four modifier states on the event equals the chord's
/// requirement exactly.  An extra held modifier therefore breaks a match.
pub open spec fn chord_matches(c: Keymask, e: KeyEvent) -> bool {
    &&& e.key == c.key
    &&& e.ctrl == c.ctrl
    &&& e.gui == c.gui
    &&& e.shift == c.shift
    &&& e.alt == c.alt
}

impl Keymask {
    /// A chord on `key` that requires no modifier at all.
    pub fn new(key: u32) -> (r: Keymask)
        ensures
            r == (Keymask { key, ctrl: false, gui: false, shift: false, alt: false }),
    {
        Keymask { key, ctrl: false, gui: false, shift: false, alt: false }
    }

    /// The same chord, with the Ctrl modifier additionally required.
    pub fn ctrl(self) -> (r: Keymask)
        ensures
            r == (Keymask { ctrl: true, ..self }),
    {
        Keymask { ctrl: true, ..self }
    }

    /// The same chord, with the GUI (command/super) modifier additionally
    /// required.
    pub fn gui(self) -> (r: Keymask)
        ensures
            r == (Keymask { gui: true, ..self }),
    {
        Keymask { gui: true, ..self }
    }

    /// The same chord, with the Shift modifier additionally required.
    pub fn shift(self) -> (r: Keymask)
        ensures
            r == (Keymask { shift: true, ..self }),
    {
        Keymask { shift: true, ..self }
    }

    /// The same chord, with the Alt modifier additionally required.
    pub fn alt(self) -> (r: Keymask)
        ensures
            r == (Keymask { alt: true, ..self }),
    {
        Keymask { alt: true, ..self }
    }

    /// The same chord, with the command key (the GUI modifier) additionally
    /// required.
    pub fn cmd(self) -> (r: Keymask)
        ensures
            r == (Keymask { gui: true, ..self }),
    {
        Keymask { gui: true, ..self }
    }

    /// The same chord, with the platform's primary shortcut modifier
    /// additionally required: the GUI key where `gui_primary` holds (the
    /// command-key platform family), Ctrl elsewhere.
    pub fn shortcut(self, gui_primary: bool) -> (r: Keymask)
        ensures
            gui_primary ==> r == (Keymask { gui: true, ..self }),
            !gui_primary ==> r == (Keymask { ctrl: true, ..self }),
    {
        if gui_primary {
            Keymask { gui: true, ..self }
        } else {
            Keymask { ctrl: true, ..self }
        }
    }

    /// Whether `e` fires this chord.  Pure and total: a non-matching event
    /// simply yields `false`.
    pub fn matches(&self, e: &KeyEvent) -> (r: bool)
        ensures
            r == chord_matches(*self, *e),
    {
        e.key == self.key && e.ctrl == self.ctrl && e.gui == self.gui && e.shift == self.shift
            && e.alt == self.alt
    }
}

/// Exactness of matching: changing any modifier state of an event that a
/// chord matches - in particular adding one the chord does not require -
/// makes the match fail.
pub proof fn lemma_modifier_change_breaks_match(c: Keymask, e1: KeyEvent, e2: KeyEvent)
    requires
        chord_matches(c, e1),
        e2.key == e1.key,
        e2 != e1,
    ensures
        !chord_matches(c, e2),
{
}

} // verus!
