//! Episode-orchestration core of a reinforcement-learning environment
//! built over a real-time simulation backend.
//!
//! The crate derives per-match invariants (the agent count) from a match
//! configuration, sequences the calls into the simulation backend and the
//! pluggable strategy components in the correct order each tick, keeps the
//! cross-tick bookkeeping (previous actions, spectator identities, initial
//! score, previous snapshot) consistent, and enforces the cardinality
//! contracts between a variable-size multi-agent roster and per-agent
//! strategy instances. The strategy components themselves — observation
//! encodings, reward shaping, termination logic, action decoding, state
//! randomization — and the simulation backend are supplied by the caller
//! and consumed through the interfaces defined here.

pub mod action_parsers;
pub mod conditionals;
pub mod envs;
pub mod gamestates;
pub mod gym;
pub mod make;
pub mod obs_builders;
pub mod reward_functions;
pub mod scalar;
pub mod sim_wrapper;
pub mod state_generator;
pub mod state_setters;
