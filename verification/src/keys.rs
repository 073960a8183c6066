//! Which screen is shown, and how key presses change it.
use vstd::prelude::*;

verus! {

/// The four screens of the monitor.
#[derive(Clone, Copy, Debug, PartialEq, Eq, Structural)]
pub enum ViewMode {
    Dashboard,
    ChartOnly,
    Log,
    Stats,
}

/// The keys the monitor reacts to; every other key is `Other`.
#[derive(Clone, Copy, Debug, PartialEq, Eq, Structural)]
pub enum KeyCode {
    Char(char),
    F(u8),
    Esc,
    Other,
}

/// A key press: the key and whether Control was held.
#[derive(Clone, Copy, Debug, PartialEq, Eq, Structural)]
pub struct KeyPress {
    pub code: KeyCode,
    pub ctrl: bool,
}

/// What the user has chosen to see.
#[derive(Clone, Copy, Debug, PartialEq, Eq, Structural)]
pub struct UiState {
    pub view_mode: ViewMode,
    pub show_help: bool,
}

/// What a key press asks of the monitor.
#[derive(Clone, Copy, Debug, PartialEq, Eq, Structural)]
pub enum Control {
    Quit,
    Continue(UiState),
}

/// `q`, or Control and `c`, end the program.
pub open spec fn is_quit_key(key: KeyPress) -> bool {
    key.code == KeyCode::Char('q') || (key.code == KeyCode::Char('c') && key.ctrl)
}

/// The screen that a number key selects.
pub open spec fn view_for_key(code: KeyCode) -> Option<ViewMode> {
    if code == KeyCode::Char('1') {
        Some(ViewMode::Dashboard)
    } else if code == KeyCode::Char('2') {
        Some(ViewMode::ChartOnly)
    } else if code == KeyCode::Char('3') {
        Some(ViewMode::Log)
    } else if code == KeyCode::Char('4') {
        Some(ViewMode::Stats)
    } else {
        None
    }
}

/// The state after a key that does not quit: F1 toggles the help, Esc closes
/// it, `1` to `4` select a screen, and every other key changes nothing.
pub open spec fn next_state(state: UiState, code: KeyCode) -> UiState {
    if code == KeyCode::F(1) {
        UiState { show_help: !state.show_help, ..state }
    } else if code == KeyCode::Esc {
        UiState { show_help: false, ..state }
    } else if view_for_key(code) is Some {
        UiState { view_mode: view_for_key(code)->0, ..state }
    } else {
        state
    }
}

impl UiState {
    /// The dashboard, without the help.
    pub fn new() -> (state: UiState)
        ensures
            state.view_mode == ViewMode::Dashboard,
            !state.show_help,
    {
        UiState { view_mode: ViewMode::Dashboard, show_help: false }
    }
}

/// Decides what a key press does.
pub fn handle_key(state: UiState, key: KeyPress) -> (control: Control)
    ensures
        control == (if is_quit_key(key) {
            Control::Quit
        } else {
            Control::Continue(next_state(state, key.code))
        }),
{
    match key.code {
        KeyCode::Char(c) => {
            if c == 'q' || (c == 'c' && key.ctrl) {
                return Control::Quit;
            }
            if c == '1' {
                Control::Continue(UiState { view_mode: ViewMode::Dashboard, ..state })
            } else if c == '2' {
                Control::Continue(UiState { view_mode: ViewMode::ChartOnly, ..state })
            } else if c == '3' {
                Control::Continue(UiState { view_mode: ViewMode::Log, ..state })
            } else if c == '4' {
                Control::Continue(UiState { view_mode: ViewMode::Stats, ..state })
            } else {
                Control::Continue(state)
            }
        },
        KeyCode::F(n) => {
            if n == 1 {
                Control::Continue(UiState { show_help: !state.show_help, ..state })
            } else {
                Control::Continue(state)
            }
        },
        KeyCode::Esc => Control::Continue(UiState { show_help: false, ..state }),
        KeyCode::Other => Control::Continue(state),
    }
}

/// Law: `q` and Control-`c` end the program whatever is on screen.
pub proof fn lemma_quit_keys_quit(ctrl: bool)
    ensures
        is_quit_key(KeyPress { code: KeyCode::Char('q'), ctrl }),
        is_quit_key(KeyPress { code: KeyCode::Char('c'), ctrl: true }),
        !is_quit_key(KeyPress { code: KeyCode::Char('c'), ctrl: false }),
{
}

/// Law: F1 flips the help and leaves the screen as it was; pressing it twice
/// brings back what was shown before.
pub proof fn lemma_help_toggle_twice(state: UiState)
    ensures
        next_state(next_state(state, KeyCode::F(1)), KeyCode::F(1)) == state,
        next_state(state, KeyCode::F(1)).show_help == !state.show_help,
        next_state(state, KeyCode::F(1)).view_mode == state.view_mode,
{
}

/// Law: only the number keys change the screen, and only F1 and Esc change
/// whether the help is shown.
pub proof fn lemma_keys_change_one_thing(state: UiState, code: KeyCode)
    ensures
        view_for_key(code) is None ==> next_state(state, code).view_mode == state.view_mode,
        code != KeyCode::F(1) && code != KeyCode::Esc ==> next_state(state, code).show_help
            == state.show_help,
{
}

/// Law: Esc always leaves the help closed and the screen as it was, so a
/// second Esc changes nothing.
pub proof fn lemma_escape_closes_help(state: UiState)
    ensures
        !next_state(state, KeyCode::Esc).show_help,
        next_state(state, KeyCode::Esc).view_mode == state.view_mode,
        next_state(next_state(state, KeyCode::Esc), KeyCode::Esc) == next_state(state, KeyCode::Esc),
{
}

/// Law: a number key selects its screen from any state and leaves the help as
/// it was.
pub proof fn lemma_number_keys_select(state: UiState, code: KeyCode)
    requires
        view_for_key(code) is Some,
    ensures
        next_state(state, code).view_mode == view_for_key(code)->0,
        next_state(state, code).show_help == state.show_help,
        next_state(next_state(state, code), code) == next_state(state, code),
{
}

/// Law: a key that is neither F1, Esc nor a number key changes nothing.
pub proof fn lemma_other_keys_ignored(state: UiState, code: KeyCode)
    requires
        code != KeyCode::F(1),
        code != KeyCode::Esc,
        view_for_key(code) is None,
    ensures
        next_state(state, code) == state,
{
}

} // verus!
