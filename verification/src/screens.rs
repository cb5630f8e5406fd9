//! The screens of the game.

use vstd::prelude::*;

verus! {

/// The screen that is on display.
#[derive(Copy, Clone, Eq, PartialEq, Hash, Debug)]
pub enum Screen {
    /// The splash screen, shown first.
    Splash,
    /// The title screen.
    Title,
    /// The track editor.
    Editor,
    /// The loading screen.
    Loading,
    /// The race itself.
    Gameplay,
}

impl Default for Screen {
    /// The game starts on the splash screen.
    fn default() -> (screen: Screen)
        ensures
            screen == Screen::Splash,
    {
        Screen::Splash
    }
}

} // verus!
