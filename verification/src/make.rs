use vstd::prelude::*;
use crate::envs::game_match::GameConfig;

verus! {

/// Everything a match is made from: the match configuration and one
/// instance of each strategy capability. `obs_builder` holds a single
/// shared instance when `use_single_obs` is set, and one instance per
/// expected agent slot otherwise.
pub struct MakeConfig<R, T, O, A, S> {
    pub game_config: GameConfig,
    pub reward_fn: R,
    pub terminal_condition: T,
    pub obs_builder: Vec<O>,
    pub action_parser: A,
    pub state_setter: S,
    pub use_single_obs: bool,
}

} // verus!
