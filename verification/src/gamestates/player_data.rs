use vstd::prelude::*;

verus! {

/// One per-agent player record of a snapshot.
///
/// `car_id` is the stable per-episode identifier used to track the player
/// across ticks; `team_num` tells the two teams apart. The record's order
/// within a snapshot's player sequence is the order used to zip players
/// against per-agent strategy instances and previous-action slots.
#[derive(Clone, Copy, PartialEq, Eq, Debug)]
pub struct PlayerData {
    pub car_id: i32,
    pub team_num: i32,
}

} // verus!
