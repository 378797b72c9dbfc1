use vstd::prelude::*;
use crate::gamestates::game_state::GameState;
use crate::gamestates::player_data::PlayerData;
use crate::scalar::Scalar;

verus! {

/// One entry of a reward function's call history, newest last.
pub enum RewardEvent {
    /// An episode-start `reset`.
    Reset,
    /// A tick-start `pre_step`.
    PreStep,
    /// A per-tick `get_reward` for the player with this identifier,
    /// returning this value.
    Reward { car_id: i32, value: Scalar },
    /// An episode-final `get_final_reward` for the player with this
    /// identifier, returning this value.
    FinalReward { car_id: i32, value: Scalar },
}

/// Reward strategy, implemented outside the core. It is stateful across
/// episodes by design (`reward_stage` selects a shaping curriculum
/// stage), and the orchestrator is its only caller.
///
/// An implementation exposes its call history as the ghost sequence
/// [`RewardFn::history`], and each operation appends exactly its own
/// event — a reward event also records the value it returned. The
/// orchestrator's contracts are stated over that history; that is how
/// "`pre_step` once per tick, one reward per player in snapshot order,
/// final rewards for every agent on the terminal tick, and the i-th
/// result is what the i-th call returned" is expressed and proved.
pub trait RewardFn {
    /// Ghost history of the calls made to this instance, oldest first.
    spec fn history(&self) -> Seq<RewardEvent>;

    /// Called once at the start of each episode.
    fn reset(&mut self, initial_state: &GameState, reward_stage: Option<usize>)
        ensures
            final(self).history() == old(self).history().push(RewardEvent::Reset),
    ;

    /// Called once per tick, before any per-agent reward call of that
    /// tick.
    fn pre_step(&mut self, state: &GameState)
        ensures
            final(self).history() == old(self).history().push(RewardEvent::PreStep),
    ;

    /// The per-tick reward of `player` in `state`; the call is recorded
    /// with its result.
    fn get_reward(&mut self, player: &PlayerData, state: &GameState) -> (r: Scalar)
        ensures
            final(self).history() == old(self).history().push(
                (RewardEvent::Reward { car_id: player.car_id, value: r }),
            ),
    ;

    /// The episode-final reward of `player` in `state`, used on the tick
    /// where the episode terminates; the call is recorded with its
    /// result.
    fn get_final_reward(&mut self, player: &PlayerData, state: &GameState) -> (r: Scalar)
        ensures
            final(self).history() == old(self).history().push(
                (RewardEvent::FinalReward { car_id: player.car_id, value: r }),
            ),
    ;
}

/// The per-agent reward calls one tick performs: one event per player in
/// snapshot player order — final rewards when the episode is done, plain
/// rewards otherwise — the i-th carrying the i-th returned value.
pub open spec fn reward_trace(players: Seq<PlayerData>, done: bool, values: Seq<Scalar>) -> Seq<
    RewardEvent,
> {
    Seq::new(
        players.len(),
        |i: int|
            if done {
                (RewardEvent::FinalReward { car_id: players[i].car_id, value: values[i] })
            } else {
                (RewardEvent::Reward { car_id: players[i].car_id, value: values[i] })
            },
    )
}

} // verus!
