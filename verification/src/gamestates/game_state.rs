use vstd::prelude::*;
use crate::gamestates::player_data::PlayerData;

verus! {

/// Largest team score tally a well-formed snapshot may report. Scores are
/// goal counts, so they are never negative; this bound keeps every score
/// difference and episode-relative score delta representable in the
/// signed 32-bit values the core returns.
pub const MAX_TEAM_SCORE: i32 = 0x3fff_ffff;

/// One simulator-produced view of match state at a tick boundary: the
/// ordered sequence of per-agent player records and the two team scores.
///
/// The player ordering is stable across ticks within one episode and is
/// the ordering used for observations, rewards and parsed actions. The
/// core consumes snapshots read-only; they are produced by the simulation
/// backend.
pub struct GameState {
    pub players: Vec<PlayerData>,
    pub blue_score: i32,
    pub orange_score: i32,
}

impl GameState {
    /// Well-formedness: team scores are tallies, never negative and
    /// bounded by [`MAX_TEAM_SCORE`].
    pub open spec fn wf(self) -> bool {
        &&& 0 <= self.blue_score <= MAX_TEAM_SCORE
        &&& 0 <= self.orange_score <= MAX_TEAM_SCORE
    }

    /// The empty pre-episode snapshot: no players, both scores zero.
    pub fn new() -> (s: GameState)
        ensures
            s.players@.len() == 0,
            s.blue_score == 0,
            s.orange_score == 0,
            s.wf(),
    {
        GameState { players: Vec::new(), blue_score: 0, orange_score: 0 }
    }
}

} // verus!
