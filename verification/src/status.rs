//! Where the program stands: choosing a game, editing, failed, or done.

use vstd::prelude::*;

verus! {

/// The pages of the first screen.
#[derive(Clone, Copy, PartialEq, Eq, Structural, Debug)]
pub enum InitialState {
    Main,
    New,
}

impl Default for InitialState {
    fn default() -> (r: Self)
        ensures
            r == InitialState::Main,
    {
        InitialState::Main
    }
}

/// The pages of the editor.
#[derive(Clone, Copy, PartialEq, Eq, Structural, Debug)]
pub enum SuccessState {
    Main,
    User,
}

impl Default for SuccessState {
    fn default() -> (r: Self)
        ensures
            r == SuccessState::Main,
    {
        SuccessState::Main
    }
}

/// Where the program goes next.
#[derive(Clone, Copy, PartialEq, Eq, Structural, Debug)]
pub enum Status {
    /// To the first screen, on the given page.
    Initial(InitialState),
    /// To the editor, on the given page, for the game at the given
    /// place in the list of games.
    Success(SuccessState, usize),
    /// To its end.
    Closure,
}

} // verus!
