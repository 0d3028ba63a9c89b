//! The input session: the raw text buffer, the three-mode state machine,
//! and the command table that routes key chords to their effects.
//!
//! The session owns no host resources.  Effectful commands are returned to
//! the caller as an `Action` value - copy this text, look this text up,
//! fetch the clipboard - and the shell performs them, handing a fetched
//! clipboard text back through `apply_paste`.  One event is processed
//! completely before the next; the dirty flag tells the shell that the
//! rendered view is stale.

use vstd::prelude::*;
use vstd::string::*;

use crate::chord::{chord_matches, KeyEvent, Keymask};
use crate::chord::{KEY_A, KEY_BACKSPACE, KEY_I, KEY_L, KEY_RETURN, KEY_V};
use crate::resolve::{convert_all, full_conversion, resolve, resolve_post};

verus! {

/// The session mode.  Exactly one is active at any time; the mode changes
/// only through the two toggle commands.
#[derive(Clone, Copy, Debug, PartialEq, Eq, Structural)]
pub enum DeroMode {
    /// Return is plain text; nothing leaves the session by itself.
    Default,
    /// Return hands the converted buffer to the dictionary look-up and the
    /// clipboard, then clears the buffer.
    Lookup,
    /// Return hands the converted buffer to the clipboard, then clears the
    /// buffer.
    Input,
}

/// The logical command a key event stands for, once a chord has matched.
#[derive(Clone, Copy, Debug, PartialEq, Eq, Structural)]
pub enum Command {
    /// Remove the last scalar of the buffer, if any.
    Backspace,
    /// The bare Return key; its effect depends on the mode.
    Enter,
    /// Shift+Return: append a newline in any mode.
    Newline,
    /// Toggle Input mode.
    ToggleInput,
    /// Toggle Lookup mode.
    ToggleLookup,
    /// Append the host clipboard's text to the buffer.
    Paste,
    /// Convert the whole buffer, copy it, and clear - if the buffer holds
    /// anything.
    CopyAll,
}

/// What the shell must do after an event was processed.  The session never
/// touches the host clipboard or the dictionary itself.
#[derive(Clone, Debug, PartialEq, Eq)]
pub enum Action {
    /// Nothing to perform.
    Nothing,
    /// Copy the carried text to the host clipboard.
    Copy(String),
    /// Look the carried text up in the host dictionary and also copy it to
    /// the clipboard.
    CopyAndLookUp(String),
    /// Fetch the host clipboard's text and hand it back via `apply_paste`.
    RequestPaste,
}

/// The chord that removes the last scalar.
pub open spec fn backspace_chord() -> Keymask {
    Keymask { key: KEY_BACKSPACE, ctrl: false, gui: false, shift: false, alt: false }
}

/// The bare Return chord.
pub open spec fn enter_chord() -> Keymask {
    Keymask { key: KEY_RETURN, ctrl: false, gui: false, shift: false, alt: false }
}

/// The Shift+Return chord.
pub open spec fn newline_chord() -> Keymask {
    Keymask { key: KEY_RETURN, ctrl: false, gui: false, shift: true, alt: false }
}

/// The shortcut+Shift+I chord; the shortcut key is GUI or Ctrl depending on
/// the platform family.
pub open spec fn toggle_input_chord(gui_primary: bool) -> Keymask {
    Keymask { key: KEY_I, ctrl: !gui_primary, gui: gui_primary, shift: true, alt: false }
}

/// The shortcut+Shift+L chord.
pub open spec fn toggle_lookup_chord(gui_primary: bool) -> Keymask {
    Keymask { key: KEY_L, ctrl: !gui_primary, gui: gui_primary, shift: true, alt: false }
}

/// The shortcut+V chord.
pub open spec fn paste_chord(gui_primary: bool) -> Keymask {
    Keymask { key: KEY_V, ctrl: !gui_primary, gui: gui_primary, shift: false, alt: false }
}

/// The shortcut+A chord.
pub open spec fn copy_all_chord(gui_primary: bool) -> Keymask {
    Keymask { key: KEY_A, ctrl: !gui_primary, gui: gui_primary, shift: false, alt: false }
}

/// The command an event stands for: the declared chords are checked in a
/// fixed order, and an event that fires none of them is no command.  The
/// chords' modifier sets are pairwise disjoint, so the order never decides.
pub open spec fn classify_spec(gui_primary: bool, e: KeyEvent) -> Option<Command> {
    if chord_matches(backspace_chord(), e) {
        Some(Command::Backspace)
    } else if chord_matches(enter_chord(), e) {
        Some(Command::Enter)
    } else if chord_matches(newline_chord(), e) {
        Some(Command::Newline)
    } else if chord_matches(toggle_input_chord(gui_primary), e) {
        Some(Command::ToggleInput)
    } else if chord_matches(toggle_lookup_chord(gui_primary), e) {
        Some(Command::ToggleLookup)
    } else if chord_matches(paste_chord(gui_primary), e) {
        Some(Command::Paste)
    } else if chord_matches(copy_all_chord(gui_primary), e) {
        Some(Command::CopyAll)
    } else {
        None
    }
}

/// The Input-mode toggle: leaving Input lands in Default, and any other
/// mode - Lookup included, without visiting Default - enters Input.
pub open spec fn toggle_input_spec(m: DeroMode) -> DeroMode {
    match m {
        DeroMode::Input => DeroMode::Default,
        _ => DeroMode::Input,
    }
}

/// The Lookup-mode toggle, symmetric to the Input one.
pub open spec fn toggle_lookup_spec(m: DeroMode) -> DeroMode {
    match m {
        DeroMode::Lookup => DeroMode::Default,
        _ => DeroMode::Lookup,
    }
}

/// The session state: the raw buffer (the source of truth - the converted
/// view is only ever a projection of it), the active mode, the dirty flag,
/// and the platform's choice of primary shortcut modifier.
pub struct InputSession {
    pub buffer: String,
    pub mode: DeroMode,
    pub dirty: bool,
    pub gui_primary: bool,
}

/// How one key event steps the session: the transition table of the state
/// machine, keyed by the recognized command and the active mode.  `f` is
/// the converter in force; the texts carried out by `Copy` and
/// `CopyAndLookUp` are whole-buffer conversions under it.
pub open spec fn key_step<F: Fn(String) -> Option<String>>(
    f: &F,
    pre: InputSession,
    e: KeyEvent,
    post: InputSession,
    a: Action,
) -> bool {
    &&& post.gui_primary == pre.gui_primary
    &&& match classify_spec(pre.gui_primary, e) {
        Option::None => post == pre && a == Action::Nothing,
        Option::Some(Command::Backspace) => {
            &&& post.mode == pre.mode
            &&& a == Action::Nothing
            &&& if pre.buffer@.len() > 0 {
                post.buffer@ == pre.buffer@.drop_last() && post.dirty == true
            } else {
                post == pre
            }
        },
        Option::Some(Command::Newline) => {
            &&& post.mode == pre.mode
            &&& post.buffer@ == pre.buffer@.push('\n')
            &&& post.dirty == true
            &&& a == Action::Nothing
        },
        Option::Some(Command::Enter) => match pre.mode {
            DeroMode::Default => {
                &&& post.mode == pre.mode
                &&& post.buffer@ == pre.buffer@.push('\n')
                &&& post.dirty == true
                &&& a == Action::Nothing
            },
            DeroMode::Input => {
                &&& post.mode == pre.mode
                &&& post.buffer@ == Seq::<char>::empty()
                &&& post.dirty == true
                &&& (a matches Action::Copy(t) && full_conversion(f, pre.buffer@, t@))
            },
            DeroMode::Lookup => {
                &&& post.mode == pre.mode
                &&& post.buffer@ == Seq::<char>::empty()
                &&& post.dirty == true
                &&& (a matches Action::CopyAndLookUp(t) && full_conversion(f, pre.buffer@, t@))
            },
        },
        Option::Some(Command::ToggleInput) => {
            &&& post.mode == toggle_input_spec(pre.mode)
            &&& post.buffer@ == pre.buffer@
            &&& post.dirty == true
            &&& a == Action::Nothing
        },
        Option::Some(Command::ToggleLookup) => {
            &&& post.mode == toggle_lookup_spec(pre.mode)
            &&& post.buffer@ == pre.buffer@
            &&& post.dirty == true
            &&& a == Action::Nothing
        },
        Option::Some(Command::Paste) => post == pre && a == Action::RequestPaste,
        Option::Some(Command::CopyAll) => {
            if pre.buffer@.len() > 0 {
                &&& post.mode == pre.mode
                &&& post.buffer@ == Seq::<char>::empty()
                &&& post.dirty == true
                &&& (a matches Action::Copy(t) && full_conversion(f, pre.buffer@, t@))
            } else {
                post == pre && a == Action::Nothing
            }
        },
    }
}

impl InputSession {
    /// A fresh session: empty buffer, the given initial mode, and the view
    /// owed a first draw.
    pub fn new(initial: DeroMode, gui_primary: bool) -> (s: InputSession)
        ensures
            s.buffer@ == Seq::<char>::empty(),
            s.mode == initial,
            s.dirty == true,
            s.gui_primary == gui_primary,
    {
        InputSession { buffer: String::new(), mode: initial, dirty: true, gui_primary }
    }

    /// The active mode, for the shell's title surface.
    pub fn current_mode(&self) -> (m: DeroMode)
        ensures
            m == self.mode,
    {
        self.mode
    }

    /// Whether the rendered view is stale relative to the current state.
    pub fn is_dirty(&self) -> (d: bool)
        ensures
            d == self.dirty,
    {
        self.dirty
    }

    /// The shell clears the flag once it has consumed the current view.
    pub fn clear_dirty(&mut self)
        ensures
            final(self).dirty == false,
            final(self).buffer@ == old(self).buffer@,
            final(self).mode == old(self).mode,
            final(self).gui_primary == old(self).gui_primary,
    {
        self.dirty = false;
    }

    /// The shell owes a redraw for an external reason (the window surface
    /// changed); the session state itself is untouched.
    pub fn mark_dirty(&mut self)
        ensures
            final(self).dirty == true,
            final(self).buffer@ == old(self).buffer@,
            final(self).mode == old(self).mode,
            final(self).gui_primary == old(self).gui_primary,
    {
        self.dirty = true;
    }

    /// The current best-effort projection of the buffer: the converted
    /// prefix and the residual raw suffix, recomputed on demand.
    pub fn render_view<F: Fn(String) -> Option<String>>(&self, convert: &F) -> (r: (
        String,
        String,
    ))
        requires
            forall|x: String| call_requires(*convert, (x,)),
        ensures
            resolve_post(convert, self.buffer@, r.0@, r.1@),
    {
        resolve(self.buffer.as_str(), convert)
    }

    /// Append a text-input event's literal text to the buffer.
    pub fn handle_text_input(&mut self, text: &str)
        ensures
            final(self).buffer@ == old(self).buffer@ + text@,
            final(self).dirty == true,
            final(self).mode == old(self).mode,
            final(self).gui_primary == old(self).gui_primary,
    {
        self.buffer.append(text);
        self.dirty = true;
    }

    /// Hand back the text fetched for a `RequestPaste` action: a non-empty
    /// text is appended raw, an empty one changes nothing.
    pub fn apply_paste(&mut self, clip: &str)
        ensures
            clip@.len() > 0 ==> final(self).buffer@ == old(self).buffer@ + clip@
                && final(self).dirty == true,
            clip@.len() == 0 ==> *final(self) == *old(self),
            final(self).mode == old(self).mode,
            final(self).gui_primary == old(self).gui_primary,
    {
        if !clip.is_empty() {
            self.buffer.append(clip);
            self.dirty = true;
        }
    }

    /// The command the event stands for under this session's shortcut
    /// modifier, if any chord fires.
    pub fn classify(&self, e: &KeyEvent) -> (c: Option<Command>)
        ensures
            c == classify_spec(self.gui_primary, *e),
    {
        let m_backspace = Keymask::new(KEY_BACKSPACE);
        let m_enter = Keymask::new(KEY_RETURN);
        let m_newline = Keymask::new(KEY_RETURN).shift();
        let m_input = Keymask::new(KEY_I).shortcut(self.gui_primary).shift();
        let m_lookup = Keymask::new(KEY_L).shortcut(self.gui_primary).shift();
        let m_paste = Keymask::new(KEY_V).shortcut(self.gui_primary);
        let m_clear = Keymask::new(KEY_A).shortcut(self.gui_primary);
        if m_backspace.matches(e) {
            Some(Command::Backspace)
        } else if m_enter.matches(e) {
            Some(Command::Enter)
        } else if m_newline.matches(e) {
            Some(Command::Newline)
        } else if m_input.matches(e) {
            Some(Command::ToggleInput)
        } else if m_lookup.matches(e) {
            Some(Command::ToggleLookup)
        } else if m_paste.matches(e) {
            Some(Command::Paste)
        } else if m_clear.matches(e) {
            Some(Command::CopyAll)
        } else {
            None
        }
    }

    /// Append a newline scalar to the buffer, touching nothing else.
    fn append_newline(&mut self)
        ensures
            final(self).buffer@ == old(self).buffer@.push('\n'),
            final(self).dirty == old(self).dirty,
            final(self).mode == old(self).mode,
            final(self).gui_primary == old(self).gui_primary,
    {
        proof {
            reveal_strlit("\n");
        }
        self.buffer.append("\n");
        proof {
            assert(self.buffer@ =~= old(self).buffer@.push('\n'));
        }
    }

    /// Remove the last scalar of the buffer if it is non-empty; exactly one
    /// scalar goes, never more, never a fraction of one.
    fn pop_scalar(&mut self) -> (removed: bool)
        ensures
            old(self).buffer@.len() > 0 ==> removed
                && final(self).buffer@ == old(self).buffer@.drop_last(),
            old(self).buffer@.len() == 0 ==> !removed && *final(self) == *old(self),
            final(self).dirty == old(self).dirty,
            final(self).mode == old(self).mode,
            final(self).gui_primary == old(self).gui_primary,
    {
        let n = self.buffer.as_str().unicode_len();
        if n > 0 {
            let shorter = String::from_str(self.buffer.as_str().substring_char(0, n - 1));
            self.buffer = shorter;
            true
        } else {
            false
        }
    }

    /// Process one key event: match it against the chord table, step the
    /// state machine, and return the effect the shell owes.  Total: an
    /// event that fires no chord does nothing.
    pub fn handle_key_event<F: Fn(String) -> Option<String>>(
        &mut self,
        e: &KeyEvent,
        convert: &F,
    ) -> (a: Action)
        requires
            forall|x: String| call_requires(*convert, (x,)),
        ensures
            key_step(convert, *old(self), *e, *final(self), a),
    {
        let cmd = self.classify(e);
        match cmd {
            Option::None => Action::Nothing,
            Option::Some(Command::Backspace) => {
                if self.pop_scalar() {
                    self.dirty = true;
                }
                Action::Nothing
            },
            Option::Some(Command::Newline) => {
                self.append_newline();
                self.dirty = true;
                Action::Nothing
            },
            Option::Some(Command::Enter) => {
                match self.mode {
                    DeroMode::Default => {
                        self.append_newline();
                        self.dirty = true;
                        Action::Nothing
                    },
                    DeroMode::Input => {
                        let converted = convert_all(self.buffer.as_str(), convert);
                        self.buffer = String::new();
                        self.dirty = true;
                        Action::Copy(converted)
                    },
                    DeroMode::Lookup => {
                        let converted = convert_all(self.buffer.as_str(), convert);
                        self.buffer = String::new();
                        self.dirty = true;
                        Action::CopyAndLookUp(converted)
                    },
                }
            },
            Option::Some(Command::ToggleInput) => {
                self.mode = match self.mode {
                    DeroMode::Input => DeroMode::Default,
                    _ => DeroMode::Input,
                };
                self.dirty = true;
                Action::Nothing
            },
            Option::Some(Command::ToggleLookup) => {
                self.mode = match self.mode {
                    DeroMode::Lookup => DeroMode::Default,
                    _ => DeroMode::Lookup,
                };
                self.dirty = true;
                Action::Nothing
            },
            Option::Some(Command::Paste) => Action::RequestPaste,
            Option::Some(Command::CopyAll) => {
                if !self.buffer.as_str().is_empty() {
                    let converted = convert_all(self.buffer.as_str(), convert);
                    self.buffer = String::new();
                    self.dirty = true;
                    Action::Copy(converted)
                } else {
                    Action::Nothing
                }
            },
        }
    }
}

/// Activating a mode's toggle twice in a row returns the session to
/// Default, from any starting mode other than the toggled mode itself: the
/// first activation enters the mode - directly, even from the other
/// non-Default mode - and the second leaves it for Default.
pub proof fn lemma_toggle_input_twice(m: DeroMode)
    requires
        m != DeroMode::Input,
    ensures
        toggle_input_spec(toggle_input_spec(m)) == DeroMode::Default,
{
}

/// The Lookup counterpart of `lemma_toggle_input_twice`.
pub proof fn lemma_toggle_lookup_twice(m: DeroMode)
    requires
        m != DeroMode::Lookup,
    ensures
        toggle_lookup_spec(toggle_lookup_spec(m)) == DeroMode::Default,
{
}

/// One activation of the other mode's toggle while in a non-Default mode
/// switches to that mode in a single step, without visiting Default.
pub proof fn lemma_direct_switch(m: DeroMode)
    requires
        m != DeroMode::Default,
    ensures
        m != DeroMode::Input ==> toggle_input_spec(m) == DeroMode::Input,
        m != DeroMode::Lookup ==> toggle_lookup_spec(m) == DeroMode::Lookup,
{
}

} // verus!
