//! The coarse application and game states: the loading-gated startup
//! phases, and the running/paused toggle.
use vstd::prelude::*;

verus! {

/// The application's top-level phases. Startup stays in the loading
/// phases until every required asset reports loaded; only then is the
/// registry populated and the menu reached.
#[derive(Clone, Copy, Debug, PartialEq, Eq, Structural, Hash)]
pub enum AppState {
    Logo,
    Loading,
    AnimationLoading,
    MainMenu,
    Game,
    GameOver,
}

/// Whether the in-game simulation is advancing.
#[derive(Clone, Copy, Debug, PartialEq, Eq, Structural, Hash)]
pub enum GameState {
    Running,
    Paused,
}

impl Default for AppState {
    /// The application starts in the loading phase.
    fn default() -> (r: AppState)
        ensures
            r == AppState::Loading,
    {
        AppState::Loading
    }
}

/// The pause toggle: running becomes paused and paused becomes running.
pub fn toggle_pause(state: GameState) -> (r: GameState)
    ensures
        state == GameState::Running ==> r == GameState::Paused,
        state == GameState::Paused ==> r == GameState::Running,
{
    match state {
        GameState::Running => GameState::Paused,
        GameState::Paused => GameState::Running,
    }
}

} // verus!
