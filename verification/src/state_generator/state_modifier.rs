use vstd::prelude::*;
use crate::gamestates::game_state::GameState;

verus! {

/// A transformation applied to a snapshot, implemented outside the core.
/// Modifiers let a state generator rewrite a snapshot before it is used;
/// the core defines only the interface.
pub trait StateModifier {
    /// Returns the rewritten snapshot.
    fn modify_state(&mut self, state: GameState) -> GameState;
}

} // verus!
