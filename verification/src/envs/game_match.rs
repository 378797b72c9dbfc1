use vstd::prelude::*;
use crate::action_parsers::action_parser::ActionParser;
use crate::conditionals::terminal_condition::TerminalCondition;
use crate::conditionals::terminal_condition::TerminalEvent;
use crate::gamestates::game_state::GameState;
use crate::gamestates::game_state::MAX_TEAM_SCORE;
use crate::gamestates::player_data::PlayerData;
use crate::make::MakeConfig;
use crate::obs_builders::obs_builder::ObsBuilder;
use crate::obs_builders::obs_builder::ObsEvent;
use crate::obs_builders::obs_builder::obs_build_trace;
use crate::reward_functions::reward_fn::RewardEvent;
use crate::reward_functions::reward_fn::RewardFn;
use crate::reward_functions::reward_fn::reward_trace;
use crate::scalar::Scalar;
use crate::scalar::UNIT_BITS;
use crate::scalar::rows_of;
use crate::sim_wrapper::CarConfig;
use crate::sim_wrapper::SimBackend;
use crate::sim_wrapper::SimEvent;
use crate::state_setters::state_setter::SetterEvent;
use crate::state_setters::state_setter::StateSetter;
use crate::state_setters::state_setter::built_then_reset;
use crate::state_setters::state_wrapper::StateWrapper;

verus! {

/// Controller degrees of freedom: the fixed length of each
/// previous-action slot, and of each raw action the facade accepts.
pub const ACTION_DOF: usize = 8;

/// Fixed capacity of the spectator-identifier slots before the first
/// episode populates them from a snapshot.
pub const SPECTATOR_SLOTS: usize = 6;

/// Immutable-per-episode description of the match shape. Replaced
/// wholesale via [`GameMatch::update_settings`], never mutated in place.
#[derive(Clone, Copy, PartialEq, Eq, Debug)]
pub struct GameConfig {
    /// Simulator gravity tuning parameter, carried through uninterpreted.
    pub gravity: Scalar,
    /// Simulator boost-consumption tuning parameter, carried through
    /// uninterpreted.
    pub boost_consumption: Scalar,
    /// Players per team; at least one.
    pub team_size: usize,
    /// Simulator ticks advanced per control step; at least one.
    pub tick_skip: usize,
    /// Whether a second, opposing team spawns.
    pub spawn_opponents: bool,
    /// Vehicle profile applied to the spawned cars.
    pub car_config: CarConfig,
}

impl GameConfig {
    /// Structural validity: at least one player per team, at least one
    /// simulator tick per control step, and a team size whose two-team
    /// roster still fits in `usize`.
    pub open spec fn wf(self) -> bool {
        &&& 1 <= self.team_size <= usize::MAX / 2
        &&& 1 <= self.tick_skip
    }

    /// Runtime check of [`GameConfig::wf`].
    pub fn is_wf(&self) -> (b: bool)
        ensures
            b == self.wf(),
    {
        1 <= self.team_size && self.team_size <= usize::MAX / 2 && 1 <= self.tick_skip
    }
}

impl Default for GameConfig {
    /// One-versus-one with opponents, eight ticks per control step, unit
    /// tuning values, the default vehicle profile.
    fn default() -> (c: Self)
        ensures
            c == (GameConfig {
                gravity: Scalar { bits: UNIT_BITS },
                boost_consumption: Scalar { bits: UNIT_BITS },
                team_size: 1,
                tick_skip: 8,
                spawn_opponents: true,
                car_config: CarConfig::Octane,
            }),
            c.wf(),
    {
        GameConfig {
            gravity: Scalar::one(),
            boost_consumption: Scalar::one(),
            team_size: 1,
            tick_skip: 8,
            spawn_opponents: true,
            car_config: CarConfig::octane(),
        }
    }
}

/// Number of controllable agents a configuration calls for: one per team
/// member, doubled when opponents spawn.
pub open spec fn agent_count_of(c: GameConfig) -> int {
    if c.spawn_opponents {
        2 * (c.team_size as int)
    } else {
        c.team_size as int
    }
}

/// Per-player match statistics. The type is an extension point: nothing
/// in the core populates or consumes it yet.
#[derive(Clone, Copy, Debug, Default)]
pub struct Stats {
    pub goals: u16,
    pub own_goals: u16,
    pub assists: u16,
}

/// The fatal conditions of the orchestration core. Each one is a
/// configuration or programming error: the call that meets it is aborted,
/// never silently corrected, and the environment instance is unusable
/// until it is reset or rebuilt.
#[derive(Clone, Copy, PartialEq, Eq, Debug)]
pub enum EnvError {
    /// The parsed-action count differs from the live player count.
    ActionCardinality { expected: usize, got: usize },
    /// Fewer observation builders than live players in per-slot mode.
    ObsBuilderShortfall { builders: usize, players: usize },
    /// A replacement configuration whose fields are structurally invalid.
    InvalidConfig,
}

/// A zero action: one zeroed value per controller degree of freedom.
pub open spec fn zero_action_spec() -> Seq<Scalar> {
    Seq::new(ACTION_DOF as nat, |i: int| Scalar { bits: 0 })
}

/// `v` holds exactly `n` zero actions.
pub open spec fn all_zero_actions(v: Seq<Vec<Scalar>>, n: int) -> bool {
    &&& v.len() == n
    &&& forall|i: int| 0 <= i < v.len() ==> (#[trigger] v[i])@ == zero_action_spec()
}

/// The spectator identifiers a snapshot induces: each player's stable
/// identifier, in snapshot player order.
pub open spec fn spectator_ids_of(players: Seq<PlayerData>) -> Seq<i32> {
    players.map_values(|p: PlayerData| p.car_id)
}

fn zero_action() -> (a: Vec<Scalar>)
    ensures
        a@ == zero_action_spec(),
{
    let mut a: Vec<Scalar> = Vec::new();
    let mut i: usize = 0;
    while i < ACTION_DOF
        invariant
            i <= ACTION_DOF,
            a@ == zero_action_spec().take(i as int),
        decreases ACTION_DOF - i,
    {
        a.push(Scalar::zero());
        i = i + 1;
        proof {
            assert(a@ =~= zero_action_spec().take(i as int));
        }
    }
    proof {
        assert(a@ =~= zero_action_spec());
    }
    a
}

fn zero_actions(n: usize) -> (v: Vec<Vec<Scalar>>)
    ensures
        all_zero_actions(v@, n as int),
{
    let mut v: Vec<Vec<Scalar>> = Vec::new();
    let mut i: usize = 0;
    while i < n
        invariant
            i <= n,
            v@.len() == i,
            forall|j: int| 0 <= j < i ==> (#[trigger] v@[j])@ == zero_action_spec(),
        decreases n - i,
    {
        v.push(zero_action());
        i = i + 1;
    }
    v
}

/// The episode orchestrator: owns the match configuration, one instance
/// of each strategy capability, and the per-episode bookkeeping, and
/// turns snapshots into observations, rewards and termination flags, and
/// raw agent actions into simulator-ready actions.
pub struct GameMatch<R, T, O, A, S, B> where
    R: RewardFn,
    T: TerminalCondition,
    O: ObsBuilder,
    A: ActionParser,
    S: StateSetter,
    B: SimBackend,
 {
    pub game_config: GameConfig,
    pub _reward_fn: R,
    pub _terminal_condition: T,
    /// A single shared instance when `use_single_obs` is set; one
    /// instance per expected agent slot otherwise.
    pub _obs_builder: Vec<O>,
    pub _action_parser: A,
    pub _state_setter: S,
    /// Derived invariant: `agent_count_of(game_config)`.
    pub agents: usize,
    /// Shape descriptor auto-detected from the observation builder at
    /// construction.
    pub observation_space: Vec<usize>,
    pub use_single_obs: bool,
    /// Shape descriptor auto-detected from the action parser at
    /// construction.
    pub action_space: Vec<usize>,
    /// One action of [`ACTION_DOF`] values per agent slot, zeroed every
    /// episode and overwritten by each successful action parse.
    pub _prev_actions: Vec<Vec<Scalar>>,
    /// Stable per-episode player identifiers, in snapshot player order.
    pub _spectator_ids: Vec<i32>,
    /// Score difference (blue minus orange) captured at episode start.
    pub _initial_score: i32,
    pub sim_wrapper: B,
}

impl<R, T, O, A, S, B> GameMatch<R, T, O, A, S, B> where
    R: RewardFn,
    T: TerminalCondition,
    O: ObsBuilder,
    A: ActionParser,
    S: StateSetter,
    B: SimBackend,
 {
    /// Orchestrator well-formedness: the configuration is valid, the
    /// agent count is the one the configuration calls for, shared
    /// observation mode has its one instance, and the captured initial
    /// score is a difference of well-formed team scores.
    pub open spec fn wf(self) -> bool {
        &&& self.game_config.wf()
        &&& self.agents == agent_count_of(self.game_config)
        &&& (self.use_single_obs ==> self._obs_builder@.len() >= 1)
        &&& -(MAX_TEAM_SCORE as int) <= self._initial_score <= MAX_TEAM_SCORE as int
    }

    /// Builds the orchestrator around the given strategy set and
    /// simulation backend. The agent count is derived from the
    /// configuration, the shape descriptors are auto-detected from the
    /// first observation builder and the action parser, and the
    /// bookkeeping starts zeroed.
    pub fn new(config: MakeConfig<R, T, O, A, S>, sim_wrapper: B) -> (m: Self)
        requires
            config.game_config.wf(),
            config.use_single_obs ==> config.obs_builder@.len() >= 1,
        ensures
            m.wf(),
            m.game_config == config.game_config,
            m.agents == agent_count_of(config.game_config),
            m._reward_fn == config.reward_fn,
            m._terminal_condition == config.terminal_condition,
            m._obs_builder@ == config.obs_builder@,
            m._action_parser == config.action_parser,
            m._state_setter == config.state_setter,
            m.use_single_obs == config.use_single_obs,
            m.observation_space@ == if config.obs_builder@.len() > 0 {
                config.obs_builder@[0].obs_shape()
            } else {
                Seq::<usize>::empty()
            },
            m.action_space@ == config.action_parser.action_shape(),
            all_zero_actions(m._prev_actions@, agent_count_of(config.game_config)),
            m._spectator_ids@ == Seq::new(SPECTATOR_SLOTS as nat, |i: int| 0i32),
            m._initial_score == 0,
            m.sim_wrapper == sim_wrapper,
    {
        let num_agents: usize = if config.game_config.spawn_opponents {
            config.game_config.team_size * 2
        } else {
            config.game_config.team_size
        };

        let mut spectator_ids: Vec<i32> = Vec::new();
        let mut i: usize = 0;
        while i < SPECTATOR_SLOTS
            invariant
                i <= SPECTATOR_SLOTS,
                spectator_ids@ == Seq::new(i as nat, |j: int| 0i32),
            decreases SPECTATOR_SLOTS - i,
        {
            spectator_ids.push(0);
            i = i + 1;
            proof {
                assert(spectator_ids@ =~= Seq::new(i as nat, |j: int| 0i32));
            }
        }

        let mut obs_builder = config.obs_builder;
        let ghost builders0 = obs_builder@;
        let observation_space: Vec<usize> = if obs_builder.len() > 0 {
            let mut b = obs_builder.remove(0);
            let shape = b.get_obs_space();
            obs_builder.insert(0, b);
            proof {
                assert(obs_builder@ =~= builders0);
            }
            shape
        } else {
            Vec::new()
        };
        let mut action_parser = config.action_parser;
        let action_space = action_parser.get_action_space();

        GameMatch {
            game_config: config.game_config,
            _reward_fn: config.reward_fn,
            _terminal_condition: config.terminal_condition,
            _obs_builder: obs_builder,
            _action_parser: action_parser,
            _state_setter: config.state_setter,
            agents: num_agents,
            observation_space,
            use_single_obs: config.use_single_obs,
            action_space,
            _prev_actions: zero_actions(num_agents),
            _spectator_ids: spectator_ids,
            _initial_score: 0,
            sim_wrapper,
        }
    }

    /// Starts a new episode on `initial_state`: recomputes the spectator
    /// identifiers from the snapshot's player ordering, zeroes one
    /// previous-action slot per agent, forwards `reset` to the terminal
    /// condition, the reward function and every active observation
    /// builder instance (exactly one call in shared mode, one per
    /// instance otherwise), and captures the initial score difference.
    pub fn episode_reset(&mut self, initial_state: &GameState, reward_stage: Option<usize>)
        requires
            old(self).wf(),
            initial_state.wf(),
        ensures
            final(self).wf(),
            *final(self) == (GameMatch {
                _reward_fn: final(self)._reward_fn,
                _terminal_condition: final(self)._terminal_condition,
                _obs_builder: final(self)._obs_builder,
                _prev_actions: final(self)._prev_actions,
                _spectator_ids: final(self)._spectator_ids,
                _initial_score: final(self)._initial_score,
                ..*old(self)
            }),
            final(self)._spectator_ids@ == spectator_ids_of(initial_state.players@),
            all_zero_actions(final(self)._prev_actions@, old(self).agents as int),
            final(self)._initial_score == initial_state.blue_score - initial_state.orange_score,
            final(self)._reward_fn.history() == old(self)._reward_fn.history().push(
                RewardEvent::Reset,
            ),
            final(self)._terminal_condition.history() == old(
                self,
            )._terminal_condition.history().push(TerminalEvent::Reset),
            final(self)._obs_builder@.len() == old(self)._obs_builder@.len(),
            old(self).use_single_obs ==> final(self)._obs_builder@[0].history()
                == old(self)._obs_builder@[0].history().push(ObsEvent::Reset),
            old(self).use_single_obs ==> forall|i: int|
                1 <= i < old(self)._obs_builder@.len()
                    ==> final(self)._obs_builder@[i] == old(self)._obs_builder@[i],
            !old(self).use_single_obs ==> forall|i: int|
                0 <= i < old(self)._obs_builder@.len()
                    ==> (#[trigger] final(self)._obs_builder@[i]).history()
                        == old(self)._obs_builder@[i].history().push(ObsEvent::Reset),
    {
        let mut spectator_ids: Vec<i32> = Vec::new();
        let mut i: usize = 0;
        while i < initial_state.players.len()
            invariant
                i <= initial_state.players@.len(),
                spectator_ids@ == spectator_ids_of(initial_state.players@.take(i as int)),
            decreases initial_state.players@.len() - i,
        {
            let p = initial_state.players[i];
            spectator_ids.push(p.car_id);
            i = i + 1;
            proof {
                assert(spectator_ids@ =~= spectator_ids_of(
                    initial_state.players@.take(i as int),
                ));
            }
        }
        proof {
            assert(initial_state.players@.take(initial_state.players@.len() as int)
                =~= initial_state.players@);
        }
        self._spectator_ids = spectator_ids;
        self._prev_actions = zero_actions(self.agents);
        self._terminal_condition.reset(initial_state);
        self._reward_fn.reset(initial_state, reward_stage);
        if self.use_single_obs {
            let ghost before = self._obs_builder@;
            let mut b = self._obs_builder.remove(0);
            b.reset(initial_state);
            self._obs_builder.insert(0, b);
            proof {
                assert(self._obs_builder@ =~= before.update(0, b));
            }
        } else {
            let ghost self0 = *self;
            let ghost builders0 = self._obs_builder@;
            let n: usize = self._obs_builder.len();
            let mut k: usize = 0;
            while k < n
                invariant
                    k <= n,
                    n == builders0.len(),
                    self._obs_builder@.len() == builders0.len(),
                    forall|j: int|
                        0 <= j < k ==> (#[trigger] self._obs_builder@[j]).history()
                            == builders0[j].history().push(ObsEvent::Reset),
                    forall|j: int| k <= j < n ==> self._obs_builder@[j] == builders0[j],
                    *self == (GameMatch { _obs_builder: self._obs_builder, ..self0 }),
                decreases n - k,
            {
                let ghost before = self._obs_builder@;
                let mut b = self._obs_builder.remove(k);
                b.reset(initial_state);
                self._obs_builder.insert(k, b);
                proof {
                    assert(self._obs_builder@ =~= before.update(k as int, b));
                }
                k = k + 1;
            }
        }
        self._initial_score = initial_state.blue_score - initial_state.orange_score;
    }

    /// Produces one observation per player of `state`, in snapshot player
    /// order. Every active builder instance receives `pre_step` exactly
    /// once before any observation of the tick is built; in shared mode
    /// the one instance then builds every player's observation, otherwise
    /// players are zipped against their own instances. In per-slot mode a
    /// roster larger than the builder set is a fatal cardinality error,
    /// reported before any builder is touched.
    pub fn build_observations(&mut self, state: &GameState) -> (r: Result<
        Vec<Vec<Scalar>>,
        EnvError,
    >)
        requires
            old(self).wf(),
        ensures
            final(self).wf(),
            *final(self) == (GameMatch { _obs_builder: final(self)._obs_builder, ..*old(self) }),
            final(self)._obs_builder@.len() == old(self)._obs_builder@.len(),
            r is Err <==> (!old(self).use_single_obs && old(self)._obs_builder@.len()
                < state.players@.len()),
            r matches Err(e) ==> {
                &&& e == (EnvError::ObsBuilderShortfall {
                    builders: old(self)._obs_builder@.len() as usize,
                    players: state.players@.len() as usize,
                })
                &&& final(self)._obs_builder == old(self)._obs_builder
            },
            r matches Ok(obs) ==> obs@.len() == state.players@.len(),
            r matches Ok(obs) ==> old(self).use_single_obs ==> {
                &&& final(self)._obs_builder@[0].history() == old(
                    self,
                )._obs_builder@[0].history().push(ObsEvent::PreStep) + obs_build_trace(
                    state.players@,
                    rows_of(obs@),
                )
                &&& forall|i: int|
                    1 <= i < old(self)._obs_builder@.len()
                        ==> final(self)._obs_builder@[i] == old(self)._obs_builder@[i]
            },
            r matches Ok(obs) ==> !old(self).use_single_obs ==> {
                &&& forall|i: int|
                    0 <= i < state.players@.len()
                        ==> (#[trigger] final(self)._obs_builder@[i]).history() == old(
                        self,
                    )._obs_builder@[i].history().push(ObsEvent::PreStep).push(
                        (ObsEvent::Build { car_id: state.players@[i].car_id, obs: obs@[i]@ }),
                    )
                &&& forall|i: int|
                    state.players@.len() <= i < old(self)._obs_builder@.len()
                        ==> (#[trigger] final(self)._obs_builder@[i]).history() == old(
                        self,
                    )._obs_builder@[i].history().push(ObsEvent::PreStep)
            },
    {
        if self.use_single_obs {
            let ghost before = self._obs_builder@;
            let mut b = self._obs_builder.remove(0);
            b.pre_step(state, &self.game_config);
            let ghost h0 = b.history();
            let mut obs: Vec<Vec<Scalar>> = Vec::new();
            let mut i: usize = 0;
            while i < state.players.len()
                invariant
                    i <= state.players@.len(),
                    obs@.len() == i,
                    b.history() == h0 + obs_build_trace(
                        state.players@.take(i as int),
                        rows_of(obs@),
                    ),
                decreases state.players@.len() - i,
            {
                let p = state.players[i];
                let o = b.build_obs(&p, state, &self.game_config);
                obs.push(o);
                i = i + 1;
                proof {
                    assert(b.history() =~= h0 + obs_build_trace(
                        state.players@.take(i as int),
                        rows_of(obs@),
                    ));
                }
            }
            self._obs_builder.insert(0, b);
            proof {
                assert(self._obs_builder@ =~= before.update(0, b));
                assert(state.players@.take(state.players@.len() as int) =~= state.players@);
            }
            Ok(obs)
        } else {
            if self._obs_builder.len() < state.players.len() {
                return Err(EnvError::ObsBuilderShortfall {
                    builders: self._obs_builder.len(),
                    players: state.players.len(),
                });
            }
            let ghost self0 = *self;
            let ghost builders0 = self._obs_builder@;
            let n: usize = self._obs_builder.len();
            let mut k: usize = 0;
            while k < n
                invariant
                    k <= n,
                    n == builders0.len(),
                    self._obs_builder@.len() == n,
                    forall|j: int|
                        0 <= j < k ==> (#[trigger] self._obs_builder@[j]).history()
                            == builders0[j].history().push(ObsEvent::PreStep),
                    forall|j: int| k <= j < n ==> self._obs_builder@[j] == builders0[j],
                    *self == (GameMatch { _obs_builder: self._obs_builder, ..self0 }),
                decreases n - k,
            {
                let ghost before = self._obs_builder@;
                let mut b = self._obs_builder.remove(k);
                b.pre_step(state, &self.game_config);
                self._obs_builder.insert(k, b);
                proof {
                    assert(self._obs_builder@ =~= before.update(k as int, b));
                }
                k = k + 1;
            }
            let ghost builders1 = self._obs_builder@;
            let mut obs: Vec<Vec<Scalar>> = Vec::new();
            let mut i: usize = 0;
            while i < state.players.len()
                invariant
                    i <= state.players@.len(),
                    state.players@.len() <= n,
                    n == builders0.len(),
                    builders1.len() == n,
                    self._obs_builder@.len() == n,
                    obs@.len() == i,
                    forall|j: int|
                        0 <= j < n ==> (#[trigger] builders1[j]).history()
                            == builders0[j].history().push(ObsEvent::PreStep),
                    forall|j: int|
                        0 <= j < i ==> (#[trigger] self._obs_builder@[j]).history()
                            == builders0[j].history().push(ObsEvent::PreStep).push(
                            (ObsEvent::Build { car_id: state.players@[j].car_id, obs: obs@[j]@ }),
                        ),
                    forall|j: int| i <= j < n ==> self._obs_builder@[j] == builders1[j],
                    *self == (GameMatch { _obs_builder: self._obs_builder, ..self0 }),
                decreases state.players@.len() - i,
            {
                let ghost before = self._obs_builder@;
                let p = state.players[i];
                let mut b = self._obs_builder.remove(i);
                proof {
                    assert(b == builders1[i as int]);
                }
                let o = b.build_obs(&p, state, &self.game_config);
                obs.push(o);
                self._obs_builder.insert(i, b);
                proof {
                    assert(self._obs_builder@ =~= before.update(i as int, b));
                }
                i = i + 1;
            }
            proof {
                assert forall|j: int| state.players@.len() <= j < n implies (#[trigger] self
                    ._obs_builder@[j]).history() == builders0[j].history().push(
                    ObsEvent::PreStep,
                ) by {
                    assert(self._obs_builder@[j] == builders1[j]);
                    assert(builders1[j].history() == builders0[j].history().push(
                        ObsEvent::PreStep,
                    ));
                }
            }
            Ok(obs)
        }
    }

    /// Produces one reward per player of `state`, in snapshot player
    /// order. The reward function receives `pre_step` exactly once before
    /// the per-agent calls; on the tick where the episode is done the
    /// episode-final reward is used for every agent, not only the agent
    /// that triggered termination.
    pub fn get_rewards(&mut self, state: &GameState, done: bool) -> (r: Vec<Scalar>)
        ensures
            r@.len() == state.players@.len(),
            *final(self) == (GameMatch { _reward_fn: final(self)._reward_fn, ..*old(self) }),
            final(self)._reward_fn.history() == old(self)._reward_fn.history().push(
                RewardEvent::PreStep,
            ) + reward_trace(state.players@, done, r@),
            old(self).wf() ==> final(self).wf(),
    {
        let mut rewards: Vec<Scalar> = Vec::new();
        self._reward_fn.pre_step(state);
        let ghost h0 = self._reward_fn.history();
        let ghost self0 = *self;
        let mut i: usize = 0;
        while i < state.players.len()
            invariant
                i <= state.players@.len(),
                rewards@.len() == i,
                self._reward_fn.history() == h0 + reward_trace(
                    state.players@.take(i as int),
                    done,
                    rewards@,
                ),
                *self == (GameMatch { _reward_fn: self._reward_fn, ..self0 }),
            decreases state.players@.len() - i,
        {
            let p = state.players[i];
            if done {
                let rv = self._reward_fn.get_final_reward(&p, state);
                rewards.push(rv);
            } else {
                let rv = self._reward_fn.get_reward(&p, state);
                rewards.push(rv);
            }
            i = i + 1;
            proof {
                assert(self._reward_fn.history() =~= h0 + reward_trace(
                    state.players@.take(i as int),
                    done,
                    rewards@,
                ));
            }
        }
        proof {
            assert(state.players@.take(state.players@.len() as int) =~= state.players@);
        }
        rewards
    }

    /// Whether the terminal condition regards `state` as ending the
    /// episode. Direct delegation.
    pub fn is_done(&mut self, state: &GameState) -> (r: bool)
        ensures
            r == old(self)._terminal_condition.terminal_verdict(*state),
            final(self)._terminal_condition.history() == old(
                self,
            )._terminal_condition.history().push((TerminalEvent::TerminalQuery { verdict: r })),
            *final(self) == (GameMatch {
                _terminal_condition: final(self)._terminal_condition,
                ..*old(self)
            }),
    {
        self._terminal_condition.is_terminal(state)
    }

    /// Whether the terminal condition regards the episode as truncated at
    /// `state`. Direct delegation; truncation is reported independently
    /// of termination.
    pub fn is_truncated(&mut self, state: &GameState) -> (r: bool)
        ensures
            r == old(self)._terminal_condition.truncated_verdict(*state),
            final(self)._terminal_condition.history() == old(
                self,
            )._terminal_condition.history().push((TerminalEvent::TruncatedQuery { verdict: r })),
            *final(self) == (GameMatch {
                _terminal_condition: final(self)._terminal_condition,
                ..*old(self)
            }),
    {
        self._terminal_condition.is_truncated(state)
    }

    /// The episode-relative score delta: the current score difference
    /// minus the difference captured at episode start.
    pub fn get_result(&self, state: &GameState) -> (r: i32)
        requires
            self.wf(),
            state.wf(),
        ensures
            r == state.blue_score - state.orange_score - self._initial_score,
    {
        let current_score: i32 = state.blue_score - state.orange_score;
        current_score - self._initial_score
    }

    /// The backend's current snapshot, without advancing the match.
    pub fn get_state(&mut self) -> (s: GameState)
        ensures
            s.players@.len() == old(self).sim_wrapper.roster(),
            s.wf(),
            final(self).sim_wrapper.roster() == old(self).sim_wrapper.roster(),
            final(self).sim_wrapper.log() == old(self).sim_wrapper.log().push(SimEvent::Queried),
            *final(self) == (GameMatch { sim_wrapper: final(self).sim_wrapper, ..*old(self) }),
    {
        self.sim_wrapper.current_state()
    }

    /// Decodes raw agent actions against `state` and checks the decoded
    /// cardinality against the live player roster: a mismatch is a fatal
    /// error, never silently truncated or padded. On success the decoded
    /// actions are cached as the previous actions and returned.
    pub fn parse_actions(&mut self, actions: Vec<Vec<Scalar>>, state: &GameState) -> (r: Result<
        Vec<Vec<Scalar>>,
        EnvError,
    >)
        ensures
            r is Ok <==> actions@.len() == state.players@.len(),
            r matches Ok(parsed) ==> {
                &&& parsed@.len() == state.players@.len()
                &&& rows_of(parsed@) == old(self)._action_parser.decoded(
                    rows_of(actions@),
                    *state,
                )
                &&& rows_of(final(self)._prev_actions@) == rows_of(parsed@)
                &&& *final(self) == (GameMatch {
                    _action_parser: final(self)._action_parser,
                    _prev_actions: final(self)._prev_actions,
                    ..*old(self)
                })
            },
            r matches Err(e) ==> {
                &&& e == (EnvError::ActionCardinality {
                    expected: state.players@.len() as usize,
                    got: actions@.len() as usize,
                })
                &&& *final(self) == (GameMatch {
                    _action_parser: final(self)._action_parser,
                    ..*old(self)
                })
            },
            old(self).wf() ==> final(self).wf(),
    {
        let parsed = self._action_parser.parse_actions(actions, state);
        if parsed.len() != state.players.len() {
            return Err(EnvError::ActionCardinality {
                expected: state.players.len(),
                got: parsed.len(),
            });
        }
        self._prev_actions = copy_actions(&parsed);
        Ok(parsed)
    }

    /// Builds the reset state for the next episode: the state setter
    /// shapes a wrapper for the current match shape — one car slot per
    /// agent — seeded with `state`, then fills it.
    pub fn get_reset_state(&mut self, state: &GameState) -> (w: StateWrapper)
        requires
            old(self).wf(),
        ensures
            w.cars@.len() == old(self).agents,
            built_then_reset(
                old(self)._state_setter.history(),
                final(self)._state_setter.history(),
                old(self).game_config.team_size,
                old(self).game_config.spawn_opponents,
                w.cars@,
            ),
            *final(self) == (GameMatch { _state_setter: final(self)._state_setter, ..*old(self) }),
    {
        let ghost h0 = self._state_setter.history();
        let mut new_state = self._state_setter.build_wrapper(
            self.game_config.team_size,
            self.game_config.spawn_opponents,
            Some(state),
        );
        let ghost built = new_state.cars@;
        self._state_setter.reset(&mut new_state);
        proof {
            assert(self._state_setter.history() == h0.push(
                (SetterEvent::Built {
                    max_team_size: self.game_config.team_size,
                    spawn_opponents: self.game_config.spawn_opponents,
                    cars: built,
                }),
            ).push((SetterEvent::Reset { cars: new_state.cars@ })));
        }
        new_state
    }

    /// Seeds the state setter's randomness.
    pub fn set_seeds(&mut self, seed: u64)
        ensures
            final(self)._state_setter.history() == old(self)._state_setter.history().push(
                (SetterEvent::Seeded { seed }),
            ),
            *final(self) == (GameMatch { _state_setter: final(self)._state_setter, ..*old(self) }),
    {
        self._state_setter.set_seed(seed);
    }

    /// The current match configuration.
    pub fn get_config(&self) -> (c: GameConfig)
        ensures
            c == self.game_config,
    {
        self.game_config
    }

    /// Replaces the match configuration, immediately recomputing the
    /// agent count, optionally replaces the observation builder set, and
    /// forwards the new configuration to the simulation backend without
    /// restarting the match. A structurally invalid configuration is
    /// rejected and nothing changes.
    pub fn update_settings(&mut self, new_config: GameConfig, new_obs_builder: Option<Vec<O>>) -> (r:
        Result<GameState, EnvError>)
        requires
            old(self).wf(),
            old(self).use_single_obs ==> (new_obs_builder matches Some(v) ==> v@.len() >= 1),
        ensures
            final(self).wf(),
            r is Ok <==> new_config.wf(),
            r matches Err(e) ==> e == EnvError::InvalidConfig && *final(self) == *old(self),
            r matches Ok(s) ==> {
                &&& final(self).game_config == new_config
                &&& final(self).agents == agent_count_of(new_config)
                &&& (new_obs_builder matches Some(v) ==> final(self)._obs_builder == v)
                &&& (new_obs_builder is None ==> final(self)._obs_builder == old(
                    self,
                )._obs_builder)
                &&& s.players@.len() == agent_count_of(new_config)
                &&& s.wf()
                &&& final(self).sim_wrapper.roster() == agent_count_of(new_config)
                &&& final(self).sim_wrapper.log() == old(self).sim_wrapper.log().push(
                    (SimEvent::Reconfigured { config: new_config, restart: false }),
                )
                &&& *final(self) == (GameMatch {
                    game_config: new_config,
                    agents: final(self).agents,
                    _obs_builder: final(self)._obs_builder,
                    sim_wrapper: final(self).sim_wrapper,
                    ..*old(self)
                })
            },
    {
        if !new_config.is_wf() {
            return Err(EnvError::InvalidConfig);
        }
        self.game_config = new_config;
        let car_count: usize = if new_config.spawn_opponents {
            new_config.team_size * 2
        } else {
            new_config.team_size
        };
        self.agents = car_count;
        if let Some(val) = new_obs_builder {
            self._obs_builder = val;
        }
        Ok(self.sim_wrapper.reconfigure(new_config, false))
    }
}

fn copy_action(a: &Vec<Scalar>) -> (r: Vec<Scalar>)
    ensures
        r@ == a@,
{
    let mut r: Vec<Scalar> = Vec::new();
    let mut i: usize = 0;
    while i < a.len()
        invariant
            i <= a@.len(),
            r@ == a@.take(i as int),
        decreases a@.len() - i,
    {
        r.push(a[i]);
        i = i + 1;
        proof {
            assert(r@ =~= a@.take(i as int));
        }
    }
    proof {
        assert(a@.take(a@.len() as int) =~= a@);
    }
    r
}

fn copy_actions(v: &Vec<Vec<Scalar>>) -> (r: Vec<Vec<Scalar>>)
    ensures
        rows_of(r@) == rows_of(v@),
{
    let mut r: Vec<Vec<Scalar>> = Vec::new();
    let mut i: usize = 0;
    while i < v.len()
        invariant
            i <= v@.len(),
            r@.len() == i,
            forall|j: int| 0 <= j < i ==> (#[trigger] r@[j])@ == v@[j]@,
        decreases v@.len() - i,
    {
        let a = copy_action(&v[i]);
        r.push(a);
        i = i + 1;
    }
    proof {
        assert(rows_of(r@) =~= rows_of(v@));
    }
    r
}

} // verus!
