//! The screens of the application and the moves between them.

use vstd::prelude::*;

verus! {

/// The screen that the application shows. The simulation runs on the
/// `Game` screen only.
#[derive(Debug, Clone, Copy, PartialEq, Eq, Hash, Structural)]
pub enum GameState {
    Loading,
    Game,
    Menu,
    GameOver,
}

/// A button of the menu or of the game-over screen.
#[derive(Debug, Clone, Copy, PartialEq, Eq, Structural)]
pub enum Button {
    Play,
    PlayAgain,
    Quit,
}

/// Something that can move the application to another screen.
#[derive(Debug, Clone, Copy, PartialEq, Eq, Structural)]
pub enum Signal {
    /// Everything that had to be loaded is there.
    Loaded,
    /// A button has been pressed.
    Pressed(Button),
    /// A movement step has ended the game.
    GameOver,
}

/// What the application does on a signal.
#[derive(Debug, Clone, Copy, PartialEq, Eq, Structural)]
pub enum Transition {
    /// It stays on its screen.
    Stay,
    /// It shows another screen.
    Enter(GameState),
    /// It ends.
    Exit,
}

impl GameState {
    /// What a signal does on this screen. Loading leads to the menu; the
    /// menu's play button and the game-over screen's play-again button lead
    /// to the game, and the quit button of either ends the application; the
    /// end of a game leads from the game to the game-over screen. A signal
    /// that does not belong to the screen is ignored.
    pub open spec fn spec_on(&self, signal: Signal) -> Transition {
        match (*self, signal) {
            (GameState::Loading, Signal::Loaded) => Transition::Enter(GameState::Menu),
            (GameState::Menu, Signal::Pressed(Button::Play)) => Transition::Enter(GameState::Game),
            (GameState::Menu, Signal::Pressed(Button::Quit)) => Transition::Exit,
            (GameState::Game, Signal::GameOver) => Transition::Enter(GameState::GameOver),
            (GameState::GameOver, Signal::Pressed(Button::PlayAgain)) => Transition::Enter(
                GameState::Game,
            ),
            (GameState::GameOver, Signal::Pressed(Button::Quit)) => Transition::Exit,
            _ => Transition::Stay,
        }
    }

    /// What a signal does on this screen.
    #[verifier::when_used_as_spec(spec_on)]
    pub fn on(&self, signal: Signal) -> (t: Transition)
        ensures
            t == self.spec_on(signal),
            t == Transition::Enter(GameState::GameOver) <==> *self == GameState::Game && signal
                == Signal::GameOver,
            t == Transition::Enter(GameState::Game) <==> (*self == GameState::Menu && signal
                == Signal::Pressed(Button::Play)) || (*self == GameState::GameOver && signal
                == Signal::Pressed(Button::PlayAgain)),
            t != Transition::Enter(GameState::Loading),
    {
        match self {
            GameState::Loading => match signal {
                Signal::Loaded => Transition::Enter(GameState::Menu),
                _ => Transition::Stay,
            },
            GameState::Menu => match signal {
                Signal::Pressed(Button::Play) => Transition::Enter(GameState::Game),
                Signal::Pressed(Button::Quit) => Transition::Exit,
                _ => Transition::Stay,
            },
            GameState::Game => match signal {
                Signal::GameOver => Transition::Enter(GameState::GameOver),
                _ => Transition::Stay,
            },
            GameState::GameOver => match signal {
                Signal::Pressed(Button::PlayAgain) => Transition::Enter(GameState::Game),
                Signal::Pressed(Button::Quit) => Transition::Exit,
                _ => Transition::Stay,
            },
        }
    }
}

impl Default for GameState {
    /// The application starts on the loading screen.
    fn default() -> (state: GameState)
        ensures
            state == GameState::Loading,
    {
        GameState::Loading
    }
}

} // verus!
