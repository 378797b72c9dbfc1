use vstd::prelude::*;
use crate::gamestates::game_state::GameState;
use crate::state_setters::state_wrapper::CarWrapper;
use crate::state_setters::state_wrapper::StateWrapper;

verus! {

/// One entry of a state setter's call history, newest last.
pub enum SetterEvent {
    /// A `build_wrapper` for this match shape, returning these car slots.
    Built { max_team_size: usize, spawn_opponents: bool, cars: Seq<CarWrapper> },
    /// A `reset` that left the wrapper with these car slots.
    Reset { cars: Seq<CarWrapper> },
    /// A `set_seed` with this seed.
    Seeded { seed: u64 },
}

/// Episode-initialization strategy, implemented outside the core. It
/// builds the state the simulation backend adopts on reset and may
/// randomize it, optionally around a prior snapshot (`seed_state`).
///
/// An implementation exposes its call history as the ghost sequence
/// [`StateSetter::history`], and each operation appends exactly its own
/// event, recording what it built, left behind, or was seeded with. The
/// one structural obligation is cardinality: the wrapper carries one car
/// slot per agent — `max_team_size` per team, two teams when opponents
/// spawn — and `reset` keeps that count. Everything inside the slots is
/// the setter's choice.
pub trait StateSetter {
    /// Ghost history of the calls made to this instance, oldest first.
    spec fn history(&self) -> Seq<SetterEvent>;

    /// Builds a wrapper shaped for the given match shape.
    fn build_wrapper(
        &mut self,
        max_team_size: usize,
        spawn_opponents: bool,
        seed_state: Option<&GameState>,
    ) -> (w: StateWrapper)
        requires
            max_team_size <= usize::MAX / 2,
        ensures
            w.cars@.len() == if spawn_opponents {
                2 * max_team_size as int
            } else {
                max_team_size as int
            },
            final(self).history() == old(self).history().push(
                (SetterEvent::Built { max_team_size, spawn_opponents, cars: w.cars@ }),
            ),
    ;

    /// Fills the wrapper's slots with the episode's starting state,
    /// keeping one slot per agent.
    fn reset(&mut self, state: &mut StateWrapper)
        ensures
            final(state).cars@.len() == old(state).cars@.len(),
            final(self).history() == old(self).history().push(
                (SetterEvent::Reset { cars: final(state).cars@ }),
            ),
    ;

    /// Seeds whatever randomness the setter uses.
    fn set_seed(&mut self, seed: u64)
        ensures
            final(self).history() == old(self).history().push((SetterEvent::Seeded { seed })),
    ;
}

/// The setter calls one reset-state build performs: a `build_wrapper` for
/// this match shape (returning some car slots) followed by one `reset`
/// that left the slots `cars`.
pub open spec fn built_then_reset(
    h0: Seq<SetterEvent>,
    h1: Seq<SetterEvent>,
    max_team_size: usize,
    spawn_opponents: bool,
    cars: Seq<CarWrapper>,
) -> bool {
    exists|built: Seq<CarWrapper>|
        h1 == h0.push((SetterEvent::Built { max_team_size, spawn_opponents, cars: built })).push(
            (SetterEvent::Reset { cars }),
        )
}

} // verus!
