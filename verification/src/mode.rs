//! The top-level modes of a session and the request to change between them.

use vstd::prelude::*;

verus! {

/// The mode of a session. A session is in exactly one of them at a time.
#[derive(Clone, Copy, Debug, PartialEq, Eq, Hash, Structural)]
pub enum GameState {
    StartMenu,
    Overworld,
    Combat,
}

/// A mode is exactly one of the three: one holds, and no two hold together.
pub proof fn lemma_exactly_one_mode(mode: GameState)
    ensures
        mode is StartMenu || mode is Overworld || mode is Combat,
        !(mode is StartMenu && mode is Overworld),
        !(mode is StartMenu && mode is Combat),
        !(mode is Overworld && mode is Combat),
{
}

/// A request to change mode, handed to whoever performs the scene
/// transition. It names the mode to enter and, if the transition effect
/// needs one, the handle of the visual asset to draw it with.
#[derive(Clone, Copy, Debug, PartialEq, Eq)]
pub struct TransitionRequest {
    pub target: GameState,
    pub asset: Option<u64>,
}

} // verus!
