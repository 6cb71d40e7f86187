use lilac::tui::{
    checked_cursor_position, cursor_position, map_key, poll_timeout, tick_due, AppAction,
    AppState, FocusTarget, KeyInput, KeyOutcome, KeyPress, LABEL_WIDTH, TICK_RATE_MS,
};

fn typed(text: &str) -> AppState {
    let mut state = AppState::default();
    for ch in text.chars() {
        state.handle_input(KeyInput::Char(ch));
    }
    state
}

fn filled(username: &str, password: &str) -> AppState {
    let mut state = AppState::default();
    state.username = username.to_string();
    state.password = password.to_string();
    state
}

#[test]
fn default_state_is_empty() {
    let state = AppState::default();
    assert_eq!(state.username, "");
    assert_eq!(state.password, "");
    assert_eq!(state.error_message, None);
    assert_eq!(state.focused, FocusTarget::Username);
    assert_eq!(state.tick, 0);
    assert_eq!(FocusTarget::default(), FocusTarget::Username);
}

#[test]
fn characters_go_to_the_focused_field() {
    let mut state = typed("root");
    assert_eq!(state.username, "root");
    assert_eq!(state.password, "");
    assert!(state.handle_input(KeyInput::Tab).is_none());
    assert!(state.handle_input(KeyInput::Char('x')).is_none());
    assert!(state.handle_input(KeyInput::Char('ß')).is_none());
    assert_eq!(state.username, "root");
    assert_eq!(state.password, "xß");
    assert_eq!(state.focused, FocusTarget::Password);
}

#[test]
fn backspace_takes_the_last_character() {
    let mut state = typed("abc");
    state.handle_input(KeyInput::Backspace);
    assert_eq!(state.username, "ab");
    state.handle_input(KeyInput::Backspace);
    state.handle_input(KeyInput::Backspace);
    assert_eq!(state.username, "");
    state.handle_input(KeyInput::Backspace);
    assert_eq!(state.username, "");
    state.password = "pé".to_string();
    state.focused = FocusTarget::Password;
    state.handle_input(KeyInput::Backspace);
    assert_eq!(state.password, "p");
    assert_eq!(state.username, "");
}

#[test]
fn tab_up_and_down_move_the_focus() {
    let mut state = AppState::default();
    state.handle_input(KeyInput::Tab);
    assert_eq!(state.focused, FocusTarget::Password);
    state.handle_input(KeyInput::Tab);
    assert_eq!(state.focused, FocusTarget::Username);
    state.handle_input(KeyInput::Down);
    assert_eq!(state.focused, FocusTarget::Password);
    state.handle_input(KeyInput::Down);
    assert_eq!(state.focused, FocusTarget::Password);
    state.handle_input(KeyInput::Up);
    assert_eq!(state.focused, FocusTarget::Username);
    state.handle_input(KeyInput::Up);
    assert_eq!(state.focused, FocusTarget::Username);
}

#[test]
fn enter_moves_to_the_first_empty_field() {
    let mut state = AppState::default();
    state.focused = FocusTarget::Password;
    assert!(state.handle_input(KeyInput::Enter).is_none());
    assert_eq!(state.focused, FocusTarget::Username);

    let mut state = filled("user", "");
    assert!(state.handle_input(KeyInput::Enter).is_none());
    assert_eq!(state.focused, FocusTarget::Password);
}

#[test]
fn enter_with_only_a_password_does_nothing() {
    let mut state = filled("", "secret");
    state.focused = FocusTarget::Password;
    assert!(state.handle_input(KeyInput::Enter).is_none());
    assert_eq!(state.focused, FocusTarget::Password);
    state.focused = FocusTarget::Username;
    assert!(state.handle_input(KeyInput::Enter).is_none());
    assert_eq!(state.focused, FocusTarget::Username);
    assert_eq!(state.password, "secret");
}

#[test]
fn enter_submits_both_fields() {
    let mut state = filled("user", "secret");
    state.focused = FocusTarget::Password;
    match state.handle_input(KeyInput::Enter) {
        Some(AppAction::Submit { username, password }) => {
            assert_eq!(username, "user");
            assert_eq!(password, "secret");
        }
        None => panic!("nothing submitted"),
    }
    assert_eq!(state.username, "user");
    assert_eq!(state.password, "secret");
    assert_eq!(state.focused, FocusTarget::Password);
}

#[test]
fn esc_changes_nothing() {
    let mut state = filled("user", "secret");
    state.error_message = Some("denied".to_string());
    state.tick = 9;
    assert!(state.handle_input(KeyInput::Esc).is_none());
    assert_eq!(state.username, "user");
    assert_eq!(state.password, "secret");
    assert_eq!(state.error_message, Some("denied".to_string()));
    assert_eq!(state.focused, FocusTarget::Username);
    assert_eq!(state.tick, 9);
}

#[test]
fn tick_counts_and_saturates() {
    let mut state = AppState::default();
    state.tick();
    state.tick();
    assert_eq!(state.tick, 2);
    state.tick = u64::MAX - 1;
    state.tick();
    assert_eq!(state.tick, u64::MAX);
    state.tick();
    assert_eq!(state.tick, u64::MAX);
}

#[test]
fn terminal_keys_become_form_keys() {
    assert_eq!(map_key(KeyPress::Char('a')), Some(KeyInput::Char('a')));
    assert_eq!(map_key(KeyPress::Char('Q')), Some(KeyInput::Char('Q')));
    assert_eq!(map_key(KeyPress::Char('q')), None);
    assert_eq!(map_key(KeyPress::Enter), Some(KeyInput::Enter));
    assert_eq!(map_key(KeyPress::Backspace), Some(KeyInput::Backspace));
    assert_eq!(map_key(KeyPress::Tab), Some(KeyInput::Tab));
    assert_eq!(map_key(KeyPress::Up), Some(KeyInput::Up));
    assert_eq!(map_key(KeyPress::Down), Some(KeyInput::Down));
    assert_eq!(map_key(KeyPress::Esc), Some(KeyInput::Esc));
    assert_eq!(map_key(KeyPress::Other), None);
}

#[test]
fn key_events_that_are_no_press_are_ignored() {
    let mut state = AppState::default();
    assert!(matches!(state.on_key(false, false, KeyPress::Char('a')), KeyOutcome::Ignored));
    assert!(matches!(state.on_key(false, true, KeyPress::Char('c')), KeyOutcome::Ignored));
    assert!(matches!(state.on_key(false, false, KeyPress::Esc), KeyOutcome::Ignored));
    assert_eq!(state.username, "");
}

#[test]
fn ctrl_c_and_esc_leave_the_form() {
    let mut state = AppState::default();
    assert!(matches!(state.on_key(true, true, KeyPress::Char('c')), KeyOutcome::Quit));
    assert!(matches!(state.on_key(true, false, KeyPress::Esc), KeyOutcome::Quit));
    assert!(matches!(state.on_key(true, true, KeyPress::Esc), KeyOutcome::Quit));
    assert_eq!(state.username, "");
}

#[test]
fn pressed_keys_reach_the_form() {
    let mut state = AppState::default();
    assert!(matches!(state.on_key(true, false, KeyPress::Char('c')), KeyOutcome::Handled(None)));
    assert!(matches!(state.on_key(true, true, KeyPress::Char('d')), KeyOutcome::Handled(None)));
    assert!(matches!(state.on_key(true, false, KeyPress::Char('q')), KeyOutcome::Handled(None)));
    assert!(matches!(state.on_key(true, false, KeyPress::Other), KeyOutcome::Handled(None)));
    assert_eq!(state.username, "cd");
    state.on_key(true, false, KeyPress::Tab);
    state.on_key(true, false, KeyPress::Char('p'));
    assert!(matches!(
        state.on_key(true, false, KeyPress::Enter),
        KeyOutcome::Handled(Some(AppAction::Submit { .. }))
    ));
}

#[test]
fn poll_timeout_is_what_is_left_of_the_tick() {
    assert_eq!(TICK_RATE_MS, 33);
    assert_eq!(poll_timeout(0), 33);
    assert_eq!(poll_timeout(1), 32);
    assert_eq!(poll_timeout(32), 1);
    assert_eq!(poll_timeout(33), 0);
    assert_eq!(poll_timeout(34), 0);
    assert_eq!(poll_timeout(u64::MAX), 0);
}

#[test]
fn tick_is_due_after_the_tick_rate() {
    assert!(!tick_due(0));
    assert!(!tick_due(32));
    assert!(tick_due(33));
    assert!(tick_due(1000));
}

#[test]
fn cursor_follows_the_focused_field() {
    assert_eq!(LABEL_WIDTH, 10);
    let state = filled("user", "secret");
    assert_eq!(cursor_position(5, 9, &state), Some((20, 10)));
    let mut state = filled("user", "secret");
    state.focused = FocusTarget::Password;
    assert_eq!(cursor_position(5, 9, &state), Some((22, 12)));
    let state = AppState::default();
    assert_eq!(cursor_position(0, 0, &state), Some((11, 1)));
}

#[test]
fn cursor_counts_bytes() {
    let state = filled("né", "");
    assert_eq!(cursor_position(1, 1, &state), Some((15, 2)));
    assert_eq!(checked_cursor_position(1, 1, &state), Some((15, 2)));
}

#[test]
fn checked_cursor_is_none_beyond_16_bits() {
    let state = filled("user", "secret");
    assert_eq!(checked_cursor_position(5, 9, &state), Some((20, 10)));
    assert_eq!(checked_cursor_position(65520, 0, &state), Some((65535, 1)));
    assert_eq!(checked_cursor_position(65521, 0, &state), None);
    assert_eq!(checked_cursor_position(0, 65534, &state), Some((15, 65535)));
    assert_eq!(checked_cursor_position(0, 65535, &state), None);
    let mut state = filled("user", "secret");
    state.focused = FocusTarget::Password;
    assert_eq!(checked_cursor_position(0, 65532, &state), Some((17, 65535)));
    assert_eq!(checked_cursor_position(0, 65533, &state), None);
    let long = filled(&"x".repeat(70_000), "");
    assert_eq!(checked_cursor_position(0, 0, &long), None);
}
