//! The screens of the game and the moves between them, with the session
//! action each move calls for.

use vstd::prelude::*;

verus! {

#[derive(Clone, Copy, Debug, PartialEq, Eq, Structural)]
pub enum AppState {
    MainMenu,
    Paused,
    InGame,
    Death,
}

/// Something the player, or the session, did.
#[derive(Clone, Copy, Debug, PartialEq, Eq, Structural)]
pub enum AppEvent {
    /// "Play" chosen in the main menu.
    Play,
    /// The pause key or button.
    TogglePause,
    /// "Resume" chosen in the pause menu.
    Resume,
    /// "Main menu" chosen in the pause menu.
    Quit,
    /// The protagonist's health ran out.
    PlayerDied,
    /// The death screen was dismissed.
    Dismiss,
}

/// What the session has to do on a move.
#[derive(Clone, Copy, Debug, PartialEq, Eq, Structural)]
pub enum SessionAction {
    Keep,
    /// A new session begins: difficulty and score reset, the field is set up.
    Start,
    /// The session is over: every entity goes.
    End,
}

/// The screen after an event, and the session action it calls for. Events
/// that do not apply to the current screen change nothing.
pub open spec fn transition(s: AppState, e: AppEvent) -> (AppState, SessionAction) {
    match (s, e) {
        (AppState::MainMenu, AppEvent::Play) => (AppState::InGame, SessionAction::Start),
        (AppState::InGame, AppEvent::TogglePause) => (AppState::Paused, SessionAction::Keep),
        (AppState::InGame, AppEvent::PlayerDied) => (AppState::Death, SessionAction::Keep),
        (AppState::Paused, AppEvent::TogglePause) => (AppState::InGame, SessionAction::Keep),
        (AppState::Paused, AppEvent::Resume) => (AppState::InGame, SessionAction::Keep),
        (AppState::Paused, AppEvent::Quit) => (AppState::MainMenu, SessionAction::End),
        (AppState::Death, AppEvent::Dismiss) => (AppState::MainMenu, SessionAction::End),
        _ => (s, SessionAction::Keep),
    }
}

/// The screen after an event, and the session action it calls for.
pub fn next_app_state(s: AppState, e: AppEvent) -> (r: (AppState, SessionAction))
    ensures
        r == transition(s, e),
{
    match (s, e) {
        (AppState::MainMenu, AppEvent::Play) => (AppState::InGame, SessionAction::Start),
        (AppState::InGame, AppEvent::TogglePause) => (AppState::Paused, SessionAction::Keep),
        (AppState::InGame, AppEvent::PlayerDied) => (AppState::Death, SessionAction::Keep),
        (AppState::Paused, AppEvent::TogglePause) => (AppState::InGame, SessionAction::Keep),
        (AppState::Paused, AppEvent::Resume) => (AppState::InGame, SessionAction::Keep),
        (AppState::Paused, AppEvent::Quit) => (AppState::MainMenu, SessionAction::End),
        (AppState::Death, AppEvent::Dismiss) => (AppState::MainMenu, SessionAction::End),
        _ => (s, SessionAction::Keep),
    }
}

/// Whether the simulation advances on this screen.
pub fn is_running(s: AppState) -> (r: bool)
    ensures
        r == (s == AppState::InGame),
{
    match s {
        AppState::InGame => true,
        _ => false,
    }
}

} // verus!
