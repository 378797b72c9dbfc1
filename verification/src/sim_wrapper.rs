use vstd::prelude::*;
use crate::envs::game_match::GameConfig;
use crate::envs::game_match::agent_count_of;
use crate::gamestates::game_state::GameState;
use crate::scalar::Scalar;
use crate::scalar::rows_of;
use crate::state_setters::state_wrapper::CarWrapper;
use crate::state_setters::state_wrapper::StateWrapper;

verus! {

/// Identifies the physical vehicle specification the simulation backend
/// applies to the spawned cars. The core carries the profile through
/// without reading it; the backend resolves it to the concrete hitbox and
/// handling constants.
#[derive(Clone, Copy, PartialEq, Eq, Debug)]
pub enum CarConfig {
    /// The conventional default vehicle body.
    Octane,
    /// A deployment-defined profile, resolved by the backend.
    Custom { profile: u64 },
}

impl CarConfig {
    /// The default vehicle profile.
    pub fn octane() -> (c: CarConfig)
        ensures
            c == CarConfig::Octane,
    {
        CarConfig::Octane
    }
}

/// One entry of the simulation backend's call log, newest last.
pub enum SimEvent {
    /// A `force_state` that adopted these car slots.
    Forced { cars: Seq<CarWrapper> },
    /// An `advance` under these parsed actions.
    Advanced { actions: Seq<Seq<Scalar>> },
    /// A `current_state` query.
    Queried,
    /// A `reconfigure` with this configuration and restart choice.
    Reconfigured { config: GameConfig, restart: bool },
}

/// Interface to the real-time simulation backend, consumed by the core
/// and implemented outside it over a concrete simulation library. Every
/// call is synchronous and blocking; the backend is queried and advanced
/// by the facade only.
///
/// The ghost function [`SimBackend::roster`] gives the number of players
/// the backend's snapshots currently report, and [`SimBackend::log`]
/// records every call made to the backend with what it was handed. The
/// contracts pin down only the structure the orchestration relies on:
/// snapshots are well-formed, adopting a reset state re-shapes the roster
/// to that state's car slots, and advancing the match keeps the roster —
/// the physics inside the snapshots is free.
pub trait SimBackend {
    /// Ghost count of the players the backend's snapshots report.
    spec fn roster(&self) -> nat;

    /// Ghost log of the calls made to this backend, oldest first.
    spec fn log(&self) -> Seq<SimEvent>;

    /// Forces the backend into the given reset state and returns the
    /// resulting snapshot, one player per car slot of the wrapper.
    fn force_state(&mut self, wrapper: StateWrapper) -> (s: GameState)
        ensures
            final(self).roster() == wrapper.cars@.len(),
            s.players@.len() == wrapper.cars@.len(),
            s.wf(),
            final(self).log() == old(self).log().push((SimEvent::Forced { cars: wrapper.cars@ })),
    ;

    /// Advances the match by one control step (`tick_skip` simulator
    /// ticks) under the given parsed actions, one action vector per
    /// agent, and returns the resulting snapshot.
    fn advance(&mut self, actions: Vec<Vec<Scalar>>) -> (s: GameState)
        ensures
            final(self).roster() == old(self).roster(),
            s.players@.len() == old(self).roster(),
            s.wf(),
            final(self).log() == old(self).log().push(
                (SimEvent::Advanced { actions: rows_of(actions@) }),
            ),
    ;

    /// Returns the current snapshot without advancing the match.
    fn current_state(&mut self) -> (s: GameState)
        ensures
            final(self).roster() == old(self).roster(),
            s.players@.len() == old(self).roster(),
            s.wf(),
            final(self).log() == old(self).log().push(SimEvent::Queried),
    ;

    /// Applies a new match configuration, re-shaping the roster to the
    /// configuration's agent count; `restart` selects whether the match
    /// is restarted besides. Returns the resulting snapshot.
    fn reconfigure(&mut self, config: GameConfig, restart: bool) -> (s: GameState)
        requires
            config.wf(),
        ensures
            final(self).roster() == agent_count_of(config),
            s.players@.len() == agent_count_of(config),
            s.wf(),
            final(self).log() == old(self).log().push((SimEvent::Reconfigured { config, restart })),
    ;
}

} // verus!
