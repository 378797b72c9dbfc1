use vstd::prelude::*;
use crate::envs::game_match::GameConfig;
use crate::gamestates::game_state::GameState;
use crate::gamestates::player_data::PlayerData;
use crate::scalar::Scalar;

verus! {

/// One entry of an observation builder's call history, newest last.
pub enum ObsEvent {
    /// An episode-start `reset`.
    Reset,
    /// A tick-start `pre_step`.
    PreStep,
    /// A `build_obs` for the player with this identifier, returning this
    /// observation.
    Build { car_id: i32, obs: Seq<Scalar> },
}

/// Observation strategy, implemented outside the core. One instance may
/// serve every agent slot (shared mode) or each slot may own its own
/// instance; the orchestrator makes that choice, not the builder.
///
/// An implementation exposes its call history as the ghost sequence
/// [`ObsBuilder::history`], and each operation appends exactly its own
/// event — a build event also records the observation it returned. The
/// orchestrator's contracts are stated over that history; that is how
/// "`pre_step` once per tick, `build_obs` once per agent per tick, in
/// snapshot player order, and the i-th result is what the i-th build
/// returned" is expressed and proved. A builder may be stateful within a
/// tick (`pre_step` caching), but it must tolerate serving several
/// players from one instance in shared mode.
pub trait ObsBuilder: Sized {
    /// Ghost history of the calls made to this instance, oldest first.
    spec fn history(&self) -> Seq<ObsEvent>;

    /// Ghost shape descriptor of the observations this builder produces.
    spec fn obs_shape(&self) -> Seq<usize>;

    /// Called once at the start of each episode with the initial snapshot.
    fn reset(&mut self, initial_state: &GameState)
        ensures
            final(self).history() == old(self).history().push(ObsEvent::Reset),
    ;

    /// Called once per tick on each active instance, before any
    /// `build_obs` call of that tick.
    fn pre_step(&mut self, state: &GameState, config: &GameConfig)
        ensures
            final(self).history() == old(self).history().push(ObsEvent::PreStep),
    ;

    /// Encodes what `player` observes in `state`. The core does not
    /// interpret the returned values; their shape is the builder's
    /// business, and the call is recorded with its result.
    fn build_obs(&mut self, player: &PlayerData, state: &GameState, config: &GameConfig) -> (obs: Vec<
        Scalar,
    >)
        ensures
            final(self).history() == old(self).history().push(
                (ObsEvent::Build { car_id: player.car_id, obs: obs@ }),
            ),
    ;

    /// Reports the shape descriptor of this builder's observations,
    /// without changing the builder.
    fn get_obs_space(&mut self) -> (shape: Vec<usize>)
        ensures
            *final(self) == *old(self),
            shape@ == old(self).obs_shape(),
    ;
}

/// The builds one tick performs: one `build_obs` event per player, in
/// snapshot player order, the i-th carrying the i-th returned observation.
pub open spec fn obs_build_trace(players: Seq<PlayerData>, rows: Seq<Seq<Scalar>>) -> Seq<
    ObsEvent,
> {
    Seq::new(players.len(), |i: int| (ObsEvent::Build { car_id: players[i].car_id, obs: rows[i] }))
}

/// The builder calls one full episode reset performs on a shared
/// instance: its episode `reset`, the first tick's `pre_step`, and one
/// build per player in snapshot order, each returning some observation.
pub open spec fn reset_obs_trace(
    h0: Seq<ObsEvent>,
    h1: Seq<ObsEvent>,
    players: Seq<PlayerData>,
) -> bool {
    exists|rows: Seq<Seq<Scalar>>|
        h1 == h0.push(ObsEvent::Reset).push(ObsEvent::PreStep) + obs_build_trace(players, rows)
}

/// The builder calls one full episode reset performs on a per-slot
/// instance zipped against the player with this identifier: its episode
/// `reset`, the first tick's `pre_step`, and that player's build,
/// returning some observation.
pub open spec fn reset_slot_trace(h0: Seq<ObsEvent>, h1: Seq<ObsEvent>, car_id: i32) -> bool {
    exists|obs: Seq<Scalar>|
        h1 == h0.push(ObsEvent::Reset).push(ObsEvent::PreStep).push(
            (ObsEvent::Build { car_id, obs }),
        )
}

} // verus!
