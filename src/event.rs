//! Keys, the movements and actions they stand for, and the commands that the
//! state machine hands to the task runner.

use vstd::prelude::*;

verus! {

/// A key, as the terminal reports it.
#[derive(Debug, Clone, Copy, PartialEq, Eq, Structural)]
pub enum KeyCode {
    Char(char),
    Enter,
    Esc,
    Tab,
    BackTab,
    Backspace,
    Delete,
    Left,
    Right,
    Up,
    Down,
    Home,
    End,
    PageUp,
    PageDown,
    Other,
}

/// A key together with the modifiers held down.
#[derive(Debug, Clone, Copy, PartialEq, Eq, Structural)]
pub struct KeyEvent {
    pub code: KeyCode,
    pub ctrl: bool,
    pub shift: bool,
}

/// Work for the task runner.
#[derive(Debug, Clone)]
pub enum Command {
    /// List `path` of the snapshot `snapshot_id`, which becomes the active one.
    LoadSnapshot { snapshot_id: String, path: String },
    /// List `path` of the active snapshot.
    NavigateDir { path: String },
    /// Restore `path` of the active snapshot into the directory `target`.
    Download { path: String, target: String },
    /// End the program.
    Quit,
}

/// A cursor movement.
#[derive(Debug, Clone, Copy, PartialEq, Eq, Structural)]
pub enum Movement {
    Up(i32),
    Down(i32),
    PageUp,
    PageDown,
    HalfPageUp,
    HalfPageDown,
    Top,
    Bottom,
}

/// What a key means outside the text inputs.
#[derive(Debug, Clone, Copy, PartialEq, Eq, Structural)]
pub enum Action {
    Quit,
    Help,
    Move(Movement),
    SwitchPanel,
    Select,
    Back,
    Download,
    Search,
}

/// Control letters page (`f`, `b`) and half-page (`d`, `u`); arrows, `j`/`k`,
/// page keys, `Home`/`g` and `End`/`G` move as usual.
pub open spec fn movement_of(key: KeyEvent) -> Option<Movement> {
    match (key.code, key.ctrl) {
        (KeyCode::Char('f'), true) => Some(Movement::PageDown),
        (KeyCode::Char('b'), true) => Some(Movement::PageUp),
        (KeyCode::Char('d'), true) => Some(Movement::HalfPageDown),
        (KeyCode::Char('u'), true) => Some(Movement::HalfPageUp),
        (KeyCode::Up, _) | (KeyCode::Char('k'), false) => Some(Movement::Up(1)),
        (KeyCode::Down, _) | (KeyCode::Char('j'), false) => Some(Movement::Down(1)),
        (KeyCode::PageUp, _) => Some(Movement::PageUp),
        (KeyCode::PageDown, _) => Some(Movement::PageDown),
        (KeyCode::Home, _) | (KeyCode::Char('g'), false) => Some(Movement::Top),
        (KeyCode::End, _) | (KeyCode::Char('G'), false) => Some(Movement::Bottom),
        _ => None,
    }
}

pub open spec fn quit_key(code: KeyCode) -> bool {
    code == KeyCode::Char('q') || code == KeyCode::Esc
}

pub open spec fn help_key(code: KeyCode) -> bool {
    code == KeyCode::Char('?')
}

pub open spec fn switch_key(code: KeyCode) -> bool {
    code == KeyCode::Tab || code == KeyCode::BackTab
}

pub open spec fn select_key(code: KeyCode) -> bool {
    code == KeyCode::Enter
}

pub open spec fn back_key(code: KeyCode) -> bool {
    code == KeyCode::Backspace || code == KeyCode::Left || code == KeyCode::Char('h')
}

pub open spec fn download_key(code: KeyCode) -> bool {
    code == KeyCode::Char('d')
}

/// The meaning of a key, by priority: quit, help, movement, panel switch,
/// select, back, download (without Control), search.
pub open spec fn action_of(key: KeyEvent) -> Option<Action> {
    if quit_key(key.code) {
        Some(Action::Quit)
    } else if help_key(key.code) {
        Some(Action::Help)
    } else if movement_of(key) is Some {
        Some(Action::Move(movement_of(key)->0))
    } else if switch_key(key.code) {
        Some(Action::SwitchPanel)
    } else if select_key(key.code) {
        Some(Action::Select)
    } else if back_key(key.code) {
        Some(Action::Back)
    } else if !key.ctrl && download_key(key.code) {
        Some(Action::Download)
    } else if key.code == KeyCode::Char('/') {
        Some(Action::Search)
    } else {
        None
    }
}

pub fn key_to_movement(key: &KeyEvent) -> (r: Option<Movement>)
    ensures
        r == movement_of(*key),
{
    match (key.code, key.ctrl) {
        (KeyCode::Char('f'), true) => Some(Movement::PageDown),
        (KeyCode::Char('b'), true) => Some(Movement::PageUp),
        (KeyCode::Char('d'), true) => Some(Movement::HalfPageDown),
        (KeyCode::Char('u'), true) => Some(Movement::HalfPageUp),
        (KeyCode::Up, _) | (KeyCode::Char('k'), false) => Some(Movement::Up(1)),
        (KeyCode::Down, _) | (KeyCode::Char('j'), false) => Some(Movement::Down(1)),
        (KeyCode::PageUp, _) => Some(Movement::PageUp),
        (KeyCode::PageDown, _) => Some(Movement::PageDown),
        (KeyCode::Home, _) | (KeyCode::Char('g'), false) => Some(Movement::Top),
        (KeyCode::End, _) | (KeyCode::Char('G'), false) => Some(Movement::Bottom),
        _ => None,
    }
}

pub fn is_panel_switch(key: KeyCode) -> (r: bool)
    ensures
        r == switch_key(key),
{
    matches!(key, KeyCode::Tab | KeyCode::BackTab)
}

pub fn is_select(key: KeyCode) -> (r: bool)
    ensures
        r == select_key(key),
{
    matches!(key, KeyCode::Enter)
}

pub fn is_back(key: KeyCode) -> (r: bool)
    ensures
        r == back_key(key),
{
    matches!(key, KeyCode::Backspace | KeyCode::Left | KeyCode::Char('h'))
}

pub fn is_download(key: KeyCode) -> (r: bool)
    ensures
        r == download_key(key),
{
    matches!(key, KeyCode::Char('d'))
}

pub fn is_quit(key: KeyCode) -> (r: bool)
    ensures
        r == quit_key(key),
{
    matches!(key, KeyCode::Char('q') | KeyCode::Esc)
}

pub fn is_help(key: KeyCode) -> (r: bool)
    ensures
        r == help_key(key),
{
    matches!(key, KeyCode::Char('?'))
}

pub fn classify(key: &KeyEvent) -> (r: Option<Action>)
    ensures
        r == action_of(*key),
{
    if is_quit(key.code) {
        Some(Action::Quit)
    } else if is_help(key.code) {
        Some(Action::Help)
    } else if let Some(m) = key_to_movement(key) {
        Some(Action::Move(m))
    } else if is_panel_switch(key.code) {
        Some(Action::SwitchPanel)
    } else if is_select(key.code) {
        Some(Action::Select)
    } else if is_back(key.code) {
        Some(Action::Back)
    } else if !key.ctrl && is_download(key.code) {
        Some(Action::Download)
    } else if matches!(key.code, KeyCode::Char('/')) {
        Some(Action::Search)
    } else {
        None
    }
}

} // verus!
