use dero_input::chord::{KeyEvent, KEY_A, KEY_BACKSPACE, KEY_I, KEY_L, KEY_RETURN, KEY_V};
use dero_input::collab::{copy_to_clipboard, look_up_word, paste_from_clipboard};
use dero_input::session::{Action, DeroMode, InputSession};

fn ev(key: u32, ctrl: bool, gui: bool, shift: bool, alt: bool) -> KeyEvent {
    KeyEvent { key, ctrl, gui, shift, alt }
}

/// A converter accepting a fixed candidate table, like the real engine.
fn table_convert(x: String) -> Option<String> {
    match x.as_str() {
        "gan" => Some("간".to_string()),
        "ga" => Some("가".to_string()),
        _ => None,
    }
}

#[test]
fn new_session_starts_dirty_with_empty_buffer() {
    let s = InputSession::new(DeroMode::Lookup, true);
    assert_eq!(s.current_mode(), DeroMode::Lookup);
    assert!(s.is_dirty());
    assert_eq!(s.buffer, "");
}

#[test]
fn text_input_appends_raw_text_and_marks_dirty() {
    let mut s = InputSession::new(DeroMode::Default, true);
    s.clear_dirty();
    s.handle_text_input("ga");
    s.handle_text_input("n");
    assert_eq!(s.buffer, "gan");
    assert!(s.is_dirty());
}

#[test]
fn backspace_removes_exactly_one_scalar() {
    let mut s = InputSession::new(DeroMode::Default, true);
    s.handle_text_input("간x");
    let backspace = ev(KEY_BACKSPACE, false, false, false, false);
    let a = s.handle_key_event(&backspace, &table_convert);
    assert_eq!(a, Action::Nothing);
    assert_eq!(s.buffer, "간");
    // The next removal takes the whole multi-byte scalar, not one byte.
    s.handle_key_event(&backspace, &table_convert);
    assert_eq!(s.buffer, "");
}

#[test]
fn backspace_on_empty_buffer_changes_nothing() {
    let mut s = InputSession::new(DeroMode::Default, true);
    s.clear_dirty();
    let backspace = ev(KEY_BACKSPACE, false, false, false, false);
    let a = s.handle_key_event(&backspace, &table_convert);
    assert_eq!(a, Action::Nothing);
    assert_eq!(s.buffer, "");
    assert!(!s.is_dirty());
}

#[test]
fn enter_in_input_mode_copies_conversion_and_clears() {
    // Mode = Input, buffer = "gan", Enter, convert("gan") = Ok("간")
    //   =>  one copy of "간", buffer empty, dirty.
    let mut s = InputSession::new(DeroMode::Input, true);
    s.handle_text_input("gan");
    s.clear_dirty();
    let enter = ev(KEY_RETURN, false, false, false, false);
    let a = s.handle_key_event(&enter, &table_convert);
    assert_eq!(a, Action::Copy("간".to_string()));
    assert_eq!(s.buffer, "");
    assert!(s.is_dirty());
    assert_eq!(s.current_mode(), DeroMode::Input);
}

#[test]
fn enter_in_lookup_mode_asks_for_look_up_too() {
    let mut s = InputSession::new(DeroMode::Lookup, true);
    s.handle_text_input("gan");
    let enter = ev(KEY_RETURN, false, false, false, false);
    let a = s.handle_key_event(&enter, &table_convert);
    assert_eq!(a, Action::CopyAndLookUp("간".to_string()));
    assert_eq!(s.buffer, "");
    assert!(s.is_dirty());
}

#[test]
fn enter_in_default_mode_is_plain_text() {
    let mut s = InputSession::new(DeroMode::Default, true);
    s.handle_text_input("gan");
    let enter = ev(KEY_RETURN, false, false, false, false);
    let a = s.handle_key_event(&enter, &table_convert);
    assert_eq!(a, Action::Nothing);
    assert_eq!(s.buffer, "gan\n");
}

#[test]
fn shift_enter_appends_newline_in_any_mode() {
    // Mode = Default, Shift+Enter on buffer "x"  =>  "x\n", mode unchanged.
    let mut s = InputSession::new(DeroMode::Default, true);
    s.handle_text_input("x");
    let shift_enter = ev(KEY_RETURN, false, false, true, false);
    let a = s.handle_key_event(&shift_enter, &table_convert);
    assert_eq!(a, Action::Nothing);
    assert_eq!(s.buffer, "x\n");
    assert_eq!(s.current_mode(), DeroMode::Default);

    let mut s = InputSession::new(DeroMode::Input, true);
    s.handle_text_input("x");
    s.handle_key_event(&shift_enter, &table_convert);
    assert_eq!(s.buffer, "x\n");
    assert_eq!(s.current_mode(), DeroMode::Input);
}

#[test]
fn copy_all_converts_copies_and_clears() {
    let mut s = InputSession::new(DeroMode::Default, true);
    s.handle_text_input("gaq");
    let copy_all = ev(KEY_A, false, true, false, false);
    let a = s.handle_key_event(&copy_all, &table_convert);
    assert_eq!(a, Action::Copy("가q".to_string()));
    assert_eq!(s.buffer, "");
    assert!(s.is_dirty());
}

#[test]
fn copy_all_on_empty_buffer_does_nothing() {
    // shortcut+A on an empty buffer: no clipboard call, no state change.
    let mut s = InputSession::new(DeroMode::Default, true);
    s.clear_dirty();
    let copy_all = ev(KEY_A, false, true, false, false);
    let a = s.handle_key_event(&copy_all, &table_convert);
    assert_eq!(a, Action::Nothing);
    assert_eq!(s.buffer, "");
    assert!(!s.is_dirty());
    assert_eq!(s.current_mode(), DeroMode::Default);
}

#[test]
fn toggle_twice_returns_to_default() {
    let mut s = InputSession::new(DeroMode::Default, true);
    let toggle_input = ev(KEY_I, false, true, true, false);
    s.handle_key_event(&toggle_input, &table_convert);
    assert_eq!(s.current_mode(), DeroMode::Input);
    s.handle_key_event(&toggle_input, &table_convert);
    assert_eq!(s.current_mode(), DeroMode::Default);

    let toggle_lookup = ev(KEY_L, false, true, true, false);
    s.handle_key_event(&toggle_lookup, &table_convert);
    assert_eq!(s.current_mode(), DeroMode::Lookup);
    s.handle_key_event(&toggle_lookup, &table_convert);
    assert_eq!(s.current_mode(), DeroMode::Default);
}

#[test]
fn toggle_switches_between_modes_directly() {
    // Lookup -> Input without visiting Default, and back.
    let mut s = InputSession::new(DeroMode::Lookup, true);
    let toggle_input = ev(KEY_I, false, true, true, false);
    s.handle_key_event(&toggle_input, &table_convert);
    assert_eq!(s.current_mode(), DeroMode::Input);
    let toggle_lookup = ev(KEY_L, false, true, true, false);
    s.handle_key_event(&toggle_lookup, &table_convert);
    assert_eq!(s.current_mode(), DeroMode::Lookup);
}

#[test]
fn paste_is_requested_then_applied() {
    let mut s = InputSession::new(DeroMode::Default, true);
    s.handle_text_input("a");
    s.clear_dirty();
    let paste = ev(KEY_V, false, true, false, false);
    let a = s.handle_key_event(&paste, &table_convert);
    assert_eq!(a, Action::RequestPaste);
    // The request alone changes nothing.
    assert_eq!(s.buffer, "a");
    assert!(!s.is_dirty());
    // The shell fetches the clipboard and hands the text back.
    s.apply_paste("bc");
    assert_eq!(s.buffer, "abc");
    assert!(s.is_dirty());
}

#[test]
fn empty_paste_changes_nothing() {
    let mut s = InputSession::new(DeroMode::Default, true);
    s.handle_text_input("a");
    s.clear_dirty();
    s.apply_paste("");
    assert_eq!(s.buffer, "a");
    assert!(!s.is_dirty());
}

#[test]
fn unrecognized_events_do_nothing() {
    let mut s = InputSession::new(DeroMode::Input, true);
    s.handle_text_input("gan");
    s.clear_dirty();
    // Enter with an extra modifier held is not the Enter chord.
    let ctrl_enter = ev(KEY_RETURN, true, false, false, false);
    let a = s.handle_key_event(&ctrl_enter, &table_convert);
    assert_eq!(a, Action::Nothing);
    assert_eq!(s.buffer, "gan");
    assert!(!s.is_dirty());
    // shortcut+A under the wrong primary modifier is not the chord either.
    let ctrl_a = ev(KEY_A, true, false, false, false);
    let a = s.handle_key_event(&ctrl_a, &table_convert);
    assert_eq!(a, Action::Nothing);
    assert_eq!(s.buffer, "gan");
}

#[test]
fn ctrl_is_the_shortcut_where_gui_is_not_primary() {
    let mut s = InputSession::new(DeroMode::Default, false);
    s.handle_text_input("gan");
    let ctrl_a = ev(KEY_A, true, false, false, false);
    let a = s.handle_key_event(&ctrl_a, &table_convert);
    assert_eq!(a, Action::Copy("간".to_string()));
    assert_eq!(s.buffer, "");
}

#[test]
fn render_view_splits_converted_and_residual() {
    let mut s = InputSession::new(DeroMode::Input, true);
    s.handle_text_input("gaq");
    let (converted, residual) = s.render_view(&table_convert);
    assert_eq!(converted, "가");
    assert_eq!(residual, "q");
    // Rendering is a projection: the raw buffer stays the source of truth.
    assert_eq!(s.buffer, "gaq");
}

#[test]
fn dirty_flag_is_cleared_and_marked() {
    let mut s = InputSession::new(DeroMode::Default, true);
    assert!(s.is_dirty());
    s.clear_dirty();
    assert!(!s.is_dirty());
    s.mark_dirty();
    assert!(s.is_dirty());
}

#[test]
fn fallback_collaborators_degrade_to_no_ops() {
    copy_to_clipboard("간");
    look_up_word("간");
    assert_eq!(paste_from_clipboard(), "");
}
