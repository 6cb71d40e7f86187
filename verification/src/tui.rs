//! The login form: its state, its keys and the text it shows.

use vstd::prelude::*;
use vstd::utf8::encode_utf8;

pub use crate::fire::{pseudo_rand, FIRE_PALETTE};
pub use crate::form::{render_to_buffer, view};

verus! {

/// Appends `ch` to the end of the string, as the documentation of
/// `String::push` says.
pub assume_specification[ String::push ](text: &mut String, ch: char)
    ensures
        final(text)@ == old(text)@.push(ch),
;

/// Removes the last character and returns it, or returns `None` and leaves
/// the string empty, as the documentation of `String::pop` says.
pub assume_specification[ String::pop ](text: &mut String) -> (last: Option<char>)
    ensures
        old(text)@.len() == 0 ==> last.is_none() && final(text)@ == old(text)@,
        old(text)@.len() > 0 ==> last == Some(old(text)@.last()) && final(text)@ == old(
            text,
        )@.drop_last(),
;

/// Milliseconds between two ticks of the form's animation.
pub const TICK_RATE_MS: u64 = 33;

/// Columns that each of the two field labels takes.
pub const LABEL_WIDTH: u16 = 10;

/// The field that takes the keys.
#[derive(Debug, Copy, Clone, PartialEq, Eq, Structural)]
pub enum FocusTarget {
    Username,
    Password,
}

impl Default for FocusTarget {
    fn default() -> (focus: Self)
        ensures
            focus == FocusTarget::Username,
    {
        FocusTarget::Username
    }
}

/// A key as the form understands it.
#[derive(Debug, Copy, Clone, PartialEq, Eq, Structural)]
pub enum KeyInput {
    Char(char),
    Enter,
    Backspace,
    Tab,
    Up,
    Down,
    Esc,
}

/// A key as the terminal reports it; `Other` stands for every key that the
/// form has no use for.
#[derive(Debug, Copy, Clone, PartialEq, Eq, Structural)]
pub enum KeyPress {
    Char(char),
    Enter,
    Backspace,
    Tab,
    Up,
    Down,
    Esc,
    Other,
}

/// What the form asks of its owner.
#[derive(Debug, Clone)]
pub enum AppAction {
    Submit { username: String, password: String },
}

/// What a key event does to the form's loop.
#[derive(Debug, Clone)]
pub enum KeyOutcome {
    /// Not a key press: the loop starts its next round at once.
    Ignored,
    /// The user leaves the form.
    Quit,
    /// The key was given to the form, if the form takes it.
    Handled(Option<AppAction>),
}

/// The state of the login form.
#[derive(Debug)]
pub struct AppState {
    pub username: String,
    pub password: String,
    pub error_message: Option<String>,
    pub focused: FocusTarget,
    pub tick: u64,
}

impl Default for AppState {
    /// An empty form with the focus on the user name.
    fn default() -> (state: Self)
        ensures
            state.username@.len() == 0,
            state.password@.len() == 0,
            state.error_message.is_none(),
            state.focused == FocusTarget::Username,
            state.tick == 0,
    {
        AppState {
            username: String::new(),
            password: String::new(),
            error_message: None,
            focused: FocusTarget::Username,
            tick: 0,
        }
    }
}

/// The form key that a terminal key stands for: `q` and the keys that the
/// form has no use for stand for none.
pub open spec fn key_of(code: KeyPress) -> Option<KeyInput> {
    match code {
        KeyPress::Char(ch) => if ch == 'q' {
            None
        } else {
            Some(KeyInput::Char(ch))
        },
        KeyPress::Enter => Some(KeyInput::Enter),
        KeyPress::Backspace => Some(KeyInput::Backspace),
        KeyPress::Tab => Some(KeyInput::Tab),
        KeyPress::Up => Some(KeyInput::Up),
        KeyPress::Down => Some(KeyInput::Down),
        KeyPress::Esc => Some(KeyInput::Esc),
        KeyPress::Other => None,
    }
}

/// Translates a terminal key into a form key.
pub fn map_key(code: KeyPress) -> (key: Option<KeyInput>)
    ensures
        key == key_of(code),
{
    match code {
        KeyPress::Char(ch) => if ch == 'q' {
            None
        } else {
            Some(KeyInput::Char(ch))
        },
        KeyPress::Enter => Some(KeyInput::Enter),
        KeyPress::Backspace => Some(KeyInput::Backspace),
        KeyPress::Tab => Some(KeyInput::Tab),
        KeyPress::Up => Some(KeyInput::Up),
        KeyPress::Down => Some(KeyInput::Down),
        KeyPress::Esc => Some(KeyInput::Esc),
        KeyPress::Other => None,
    }
}

/// How long the form's loop waits for a key when `elapsed_ms` milliseconds
/// have passed since the last tick: what is left of the tick rate.
pub fn poll_timeout(elapsed_ms: u64) -> (timeout_ms: u64)
    ensures
        timeout_ms == if elapsed_ms >= TICK_RATE_MS {
            0
        } else {
            TICK_RATE_MS - elapsed_ms
        },
{
    TICK_RATE_MS.saturating_sub(elapsed_ms)
}

/// Whether a tick is due when `elapsed_ms` milliseconds have passed since
/// the last one.
pub fn tick_due(elapsed_ms: u64) -> (due: bool)
    ensures
        due == (elapsed_ms >= TICK_RATE_MS),
{
    elapsed_ms >= TICK_RATE_MS
}

impl AppState {
    /// The text of the focused field after `key`.
    pub open spec fn edited(text: Seq<char>, key: KeyInput) -> Seq<char> {
        match key {
            KeyInput::Char(ch) => text.push(ch),
            KeyInput::Backspace => if text.len() > 0 {
                text.drop_last()
            } else {
                text
            },
            _ => text,
        }
    }

    /// The user name after `key`.
    pub open spec fn username_after(&self, key: KeyInput) -> Seq<char> {
        if self.focused == FocusTarget::Username {
            Self::edited(self.username@, key)
        } else {
            self.username@
        }
    }

    /// The password after `key`.
    pub open spec fn password_after(&self, key: KeyInput) -> Seq<char> {
        if self.focused == FocusTarget::Password {
            Self::edited(self.password@, key)
        } else {
            self.password@
        }
    }

    /// The focus after `key`. Enter moves it to the first field that is
    /// still empty, and leaves it where both are filled or only the user
    /// name is missing.
    pub open spec fn focus_after(&self, key: KeyInput) -> FocusTarget {
        match key {
            KeyInput::Tab => match self.focused {
                FocusTarget::Username => FocusTarget::Password,
                FocusTarget::Password => FocusTarget::Username,
            },
            KeyInput::Up => FocusTarget::Username,
            KeyInput::Down => FocusTarget::Password,
            KeyInput::Enter => if self.username@.len() == 0 && self.password@.len() == 0 {
                FocusTarget::Username
            } else if self.username@.len() != 0 && self.password@.len() == 0 {
                FocusTarget::Password
            } else {
                self.focused
            },
            _ => self.focused,
        }
    }

    /// Whether `key` submits the form: Enter with both fields filled.
    pub open spec fn submits(&self, key: KeyInput) -> bool {
        key == KeyInput::Enter && self.username@.len() != 0 && self.password@.len() != 0
    }

    /// Whether `after` and `action` are what giving `key` to the form makes of
    /// it: the fields and the focus as above, the error message and the tick
    /// as they were, and an action exactly when the key submits, carrying
    /// both fields.
    pub open spec fn handled(&self, after: &AppState, key: KeyInput, action: Option<AppAction>) -> bool {
        &&& after.username@ == self.username_after(key)
        &&& after.password@ == self.password_after(key)
        &&& after.focused == self.focus_after(key)
        &&& after.error_message == self.error_message
        &&& after.tick == self.tick
        &&& self.submits(key) <==> action.is_some()
        &&& action matches Some(AppAction::Submit { username, password }) ==> username@
            == self.username@ && password@ == self.password@
    }

    /// Gives `key` to the form. A character goes to the end of the focused
    /// field and Backspace takes the last one away; Tab, Up and Down move the
    /// focus; Enter submits both fields once both are filled and else moves
    /// the focus to the first empty one; Esc does nothing.
    pub fn handle_input(&mut self, key: KeyInput) -> (action: Option<AppAction>)
        ensures
            old(self).handled(final(self), key, action),
    {
        match key {
            KeyInput::Char(ch) => match self.focused {
                FocusTarget::Username => self.username.push(ch),
                FocusTarget::Password => self.password.push(ch),
            },
            KeyInput::Backspace => match self.focused {
                FocusTarget::Username => {
                    self.username.pop();
                },
                FocusTarget::Password => {
                    self.password.pop();
                },
            },
            KeyInput::Tab => {
                self.focused = match self.focused {
                    FocusTarget::Username => FocusTarget::Password,
                    FocusTarget::Password => FocusTarget::Username,
                };
            },
            KeyInput::Up => {
                self.focused = FocusTarget::Username;
            },
            KeyInput::Down => {
                self.focused = FocusTarget::Password;
            },
            KeyInput::Enter => {
                let username_empty = self.username.as_str().is_empty();
                let password_empty = self.password.as_str().is_empty();
                if username_empty && password_empty {
                    self.focused = FocusTarget::Username;
                } else if !username_empty && password_empty {
                    self.focused = FocusTarget::Password;
                } else if !username_empty && !password_empty {
                    return Some(
                        AppAction::Submit {
                            username: self.username.clone(),
                            password: self.password.clone(),
                        },
                    );
                }
            },
            KeyInput::Esc => {},
        }
        None
    }

    /// Counts one tick of the animation; the counter stops at its largest
    /// value.
    pub fn tick(&mut self)
        ensures
            final(self).tick == if old(self).tick == u64::MAX {
                u64::MAX
            } else {
                (old(self).tick + 1) as u64
            },
            final(self).username == old(self).username,
            final(self).password == old(self).password,
            final(self).error_message == old(self).error_message,
            final(self).focused == old(self).focused,
    {
        self.tick = self.tick.saturating_add(1);
    }

    /// Handles one key event of the terminal. Anything but a key press is
    /// ignored; Ctrl-C and Esc leave the form; every other key goes to the
    /// form if the form takes it.
    pub fn on_key(&mut self, pressed: bool, control: bool, code: KeyPress) -> (outcome: KeyOutcome)
        ensures
            !pressed ==> outcome is Ignored,
            pressed && (code == KeyPress::Esc || (control && code == KeyPress::Char('c')))
                ==> outcome is Quit,
            outcome is Ignored || outcome is Quit ==> *final(self) == *old(self),
            pressed && code != KeyPress::Esc && !(control && code == KeyPress::Char('c')) ==> {
                &&& outcome matches KeyOutcome::Handled(action)
                &&& match key_of(code) {
                    None => action.is_none() && *final(self) == *old(self),
                    Some(key) => old(self).handled(final(self), key, action),
                }
            },
    {
        if !pressed {
            return KeyOutcome::Ignored;
        }
        if control && code == KeyPress::Char('c') {
            return KeyOutcome::Quit;
        }
        if code == KeyPress::Esc {
            return KeyOutcome::Quit;
        }
        match map_key(code) {
            Some(key) => KeyOutcome::Handled(self.handle_input(key)),
            None => KeyOutcome::Handled(None),
        }
    }
}

/// The number of bytes that `text` takes in UTF-8.
pub open spec fn byte_len(text: Seq<char>) -> nat {
    encode_utf8(text).len()
}

/// Where the cursor stands for a form whose text area starts at
/// (`inner_x`, `inner_y`): behind the text of the focused field, which
/// follows its label one column in; the user name is on the second row and
/// the password on the fourth.
pub open spec fn cursor_at(inner_x: u16, inner_y: u16, state: &AppState) -> (int, int) {
    match state.focused {
        FocusTarget::Username => (
            inner_x + 1 + LABEL_WIDTH + byte_len(state.username@),
            inner_y + 1,
        ),
        FocusTarget::Password => (
            inner_x + 1 + LABEL_WIDTH + byte_len(state.password@),
            inner_y + 3,
        ),
    }
}

/// Computes the cursor position for a form whose text area starts at
/// (`inner_x`, `inner_y`). The position has to fit the 16-bit coordinates of
/// a terminal.
pub fn cursor_position(inner_x: u16, inner_y: u16, state: &AppState) -> (position: Option<
    (u16, u16),
>)
    requires
        cursor_at(inner_x, inner_y, state).0 <= u16::MAX,
        cursor_at(inner_x, inner_y, state).1 <= u16::MAX,
    ensures
        position matches Some(p) && (p.0 as int, p.1 as int) == cursor_at(inner_x, inner_y, state),
{
    let base_x: u16 = inner_x + 1;
    let base_y: u16 = inner_y + 1;
    match state.focused {
        FocusTarget::Username => Some(
            (base_x + LABEL_WIDTH + state.username.as_str().len() as u16, base_y),
        ),
        FocusTarget::Password => Some(
            (base_x + LABEL_WIDTH + state.password.as_str().len() as u16, base_y + 2),
        ),
    }
}

/// Computes the cursor position where it fits the 16-bit coordinates of a
/// terminal, and `None` where it does not.
pub fn checked_cursor_position(inner_x: u16, inner_y: u16, state: &AppState) -> (position: Option<
    (u16, u16),
>)
    ensures
        match position {
            Some(p) => (p.0 as int, p.1 as int) == cursor_at(inner_x, inner_y, state),
            None => cursor_at(inner_x, inner_y, state).0 > u16::MAX || cursor_at(
                inner_x,
                inner_y,
                state,
            ).1 > u16::MAX,
        },
{
    let len: usize = match state.focused {
        FocusTarget::Username => state.username.as_str().as_bytes().len(),
        FocusTarget::Password => state.password.as_str().as_bytes().len(),
    };
    let row: u16 = match state.focused {
        FocusTarget::Username => 1,
        FocusTarget::Password => 3,
    };
    if inner_y > u16::MAX - row {
        return None;
    }
    let room: u16 = u16::MAX - LABEL_WIDTH - 1;
    if inner_x > room || len > (room - inner_x) as usize {
        return None;
    }
    cursor_position(inner_x, inner_y, state)
}

} // verus!
