//! An input-helper core: the user types romanized text, and an externally
//! supplied conversion function re-interprets it into a target script.
//!
//! The crate holds the three pieces of decision logic of such a helper:
//! chord matching (`chord`), the conversion-boundary search (`resolve`),
//! and the three-mode input session state machine (`session`).  Window
//! management, rendering, the clipboard and the dictionary look-up are
//! external collaborators; `collab` holds the portable no-op fallbacks
//! for hosts that lack them.

pub mod chord;
pub mod collab;
pub mod resolve;
pub mod session;
