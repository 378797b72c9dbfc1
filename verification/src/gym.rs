use vstd::prelude::*;
use crate::action_parsers::action_parser::ActionParser;
use crate::conditionals::terminal_condition::TerminalCondition;
use crate::conditionals::terminal_condition::TerminalEvent;
use crate::envs::game_match::EnvError;
use crate::envs::game_match::GameMatch;
use crate::envs::game_match::all_zero_actions;
use crate::envs::game_match::spectator_ids_of;
use crate::gamestates::game_state::GameState;
use crate::obs_builders::obs_builder::ObsBuilder;
use crate::obs_builders::obs_builder::ObsEvent;
use crate::obs_builders::obs_builder::obs_build_trace;
use crate::reward_functions::reward_fn::RewardEvent;
use crate::reward_functions::reward_fn::RewardFn;
use crate::reward_functions::reward_fn::reward_trace;
use crate::scalar::Scalar;
use crate::scalar::rows_of;
use crate::sim_wrapper::SimBackend;
use crate::sim_wrapper::SimEvent;
use crate::obs_builders::obs_builder::reset_obs_trace;
use crate::obs_builders::obs_builder::reset_slot_trace;
use crate::state_setters::state_setter::SetterEvent;
use crate::state_setters::state_setter::StateSetter;
use crate::state_setters::state_setter::built_then_reset;
use crate::state_setters::state_wrapper::CarWrapper;

verus! {

/// Per-step diagnostic information handed back by [`Gym::step`], always
/// carrying at least the episode-relative result.
#[derive(Clone, Copy, PartialEq, Eq, Debug)]
pub struct StepInfo {
    /// The orchestrator's episode-relative score delta at this step.
    pub result: i32,
}

/// The setter and backend calls one facade reset performs: a build of the
/// reset wrapper for the current match shape, the setter's own reset of
/// it, and the backend forced to exactly the car slots the setter left.
pub open spec fn reset_backend_trace(
    setter0: Seq<SetterEvent>,
    setter1: Seq<SetterEvent>,
    sim0: Seq<SimEvent>,
    sim1: Seq<SimEvent>,
    team_size: usize,
    spawn_opponents: bool,
) -> bool {
    exists|cars: Seq<CarWrapper>|
        #![trigger built_then_reset(setter0, setter1, team_size, spawn_opponents, cars)]
        built_then_reset(setter0, setter1, team_size, spawn_opponents, cars) && sim1 == sim0.push(
            (SimEvent::Forced { cars }),
        )
}

/// The environment facade: owns the episode orchestrator and the cached
/// previous snapshot, and exposes the reset/step loop a training process
/// consumes.
pub struct Gym<R, T, O, A, S, B> where
    R: RewardFn,
    T: TerminalCondition,
    O: ObsBuilder,
    A: ActionParser,
    S: StateSetter,
    B: SimBackend,
 {
    pub _game_match: GameMatch<R, T, O, A, S, B>,
    pub observation_space: Vec<usize>,
    pub action_space: Vec<usize>,
    /// The most recently produced snapshot, context for the next
    /// action-parsing call.
    pub _prev_state: GameState,
}

impl<R, T, O, A, S, B> Gym<R, T, O, A, S, B> where
    R: RewardFn,
    T: TerminalCondition,
    O: ObsBuilder,
    A: ActionParser,
    S: StateSetter,
    B: SimBackend,
 {
    /// Facade well-formedness: the orchestrator is well-formed, and the
    /// cached snapshot and the backend's roster both carry one player per
    /// agent slot.
    pub open spec fn wf(self) -> bool {
        &&& self._game_match.wf()
        &&& self._prev_state.wf()
        &&& self._prev_state.players@.len() == self._game_match.agents
        &&& self._game_match.sim_wrapper.roster() == self._game_match.agents
    }

    /// Builds the facade around an orchestrator and runs the first
    /// episode reset, so the facade starts in an active, well-formed
    /// state. In per-slot observation mode the builder set must cover the
    /// roster, or that first reset could not produce its observations.
    pub fn new(game_match: GameMatch<R, T, O, A, S, B>) -> (g: Self)
        requires
            game_match.wf(),
            !game_match.use_single_obs ==> game_match._obs_builder@.len() >= game_match.agents,
        ensures
            g.wf(),
            g._game_match.game_config == game_match.game_config,
            g._game_match.agents == game_match.agents,
            g._game_match.use_single_obs == game_match.use_single_obs,
            g.observation_space@ == game_match.observation_space@,
            g.action_space@ == game_match.action_space@,
            g._game_match._initial_score == g._prev_state.blue_score
                - g._prev_state.orange_score,
            g._game_match._spectator_ids@ == spectator_ids_of(g._prev_state.players@),
            all_zero_actions(g._game_match._prev_actions@, game_match.agents as int),
            g._game_match._reward_fn.history() == game_match._reward_fn.history().push(
                RewardEvent::Reset,
            ),
            g._game_match._terminal_condition.history()
                == game_match._terminal_condition.history().push(TerminalEvent::Reset),
            reset_backend_trace(
                game_match._state_setter.history(),
                g._game_match._state_setter.history(),
                game_match.sim_wrapper.log(),
                g._game_match.sim_wrapper.log(),
                game_match.game_config.team_size,
                game_match.game_config.spawn_opponents,
            ),
            game_match.use_single_obs ==> reset_obs_trace(
                game_match._obs_builder@[0].history(),
                g._game_match._obs_builder@[0].history(),
                g._prev_state.players@,
            ),
            !game_match.use_single_obs ==> forall|i: int|
                0 <= i < game_match.agents ==> reset_slot_trace(
                    game_match._obs_builder@[i].history(),
                    (#[trigger] g._game_match._obs_builder@[i]).history(),
                    g._prev_state.players@[i].car_id,
                ),
    {
        let observation_space = copy_shape(&game_match.observation_space);
        let action_space = copy_shape(&game_match.action_space);
        let mut gym = Gym {
            _game_match: game_match,
            observation_space,
            action_space,
            _prev_state: GameState::new(),
        };
        let first = gym.reset(None, None);
        match first {
            Ok(obs) => {
                proof {
                    if gym._game_match.use_single_obs {
                        assert(reset_obs_trace(
                            game_match._obs_builder@[0].history(),
                            gym._game_match._obs_builder@[0].history(),
                            gym._prev_state.players@,
                        ));
                    } else {
                        assert forall|i: int| 0 <= i < gym._game_match.agents implies
                            reset_slot_trace(
                                game_match._obs_builder@[i].history(),
                                (#[trigger] gym._game_match._obs_builder@[i]).history(),
                                gym._prev_state.players@[i].car_id,
                            ) by {
                            assert(gym._game_match._obs_builder@[i].history()
                                == game_match._obs_builder@[i].history().push(
                                ObsEvent::Reset,
                            ).push(ObsEvent::PreStep).push(
                                (ObsEvent::Build {
                                    car_id: gym._prev_state.players@[i].car_id,
                                    obs: obs@[i]@,
                                }),
                            ));
                        }
                    }
                }
            },
            Err(_) => {
                proof {
                    assert(false);
                }
            },
        }
        gym
    }

    /// Starts a new episode: optionally forwards `seed` to the state
    /// setter, asks the orchestrator for a reset state, forces the
    /// backend into it, resets the episode bookkeeping on the resulting
    /// snapshot, caches that snapshot, and returns one observation per
    /// agent. The only failure is a builder set smaller than the roster
    /// in per-slot observation mode.
    pub fn reset(&mut self, _return_info: Option<bool>, seed: Option<u64>) -> (r: Result<
        Vec<Vec<Scalar>>,
        EnvError,
    >)
        requires
            old(self)._game_match.wf(),
        ensures
            final(self).wf(),
            final(self)._game_match.game_config == old(self)._game_match.game_config,
            final(self)._game_match.agents == old(self)._game_match.agents,
            final(self)._game_match.use_single_obs == old(self)._game_match.use_single_obs,
            final(self)._game_match._obs_builder@.len() == old(self)._game_match._obs_builder@.len(),
            r is Ok <==> (old(self)._game_match.use_single_obs || old(self)._game_match._obs_builder@.len() >= old(self)._game_match.agents),
            r matches Err(e) ==> e == (EnvError::ObsBuilderShortfall {
                builders: old(self)._game_match._obs_builder@.len() as usize,
                players: old(self)._game_match.agents,
            }),
            final(self)._prev_state.players@.len() == old(self)._game_match.agents,
            final(self)._game_match._initial_score == final(self)._prev_state.blue_score - final(self)._prev_state.orange_score,
            final(self)._game_match._spectator_ids@ == spectator_ids_of(
                final(self)._prev_state.players@,
            ),
            all_zero_actions(
                final(self)._game_match._prev_actions@,
                old(self)._game_match.agents as int,
            ),
            final(self).observation_space == old(self).observation_space,
            final(self).action_space == old(self).action_space,
            final(self)._game_match._reward_fn.history() == old(
                self,
            )._game_match._reward_fn.history().push(RewardEvent::Reset),
            final(self)._game_match._terminal_condition.history() == old(
                self,
            )._game_match._terminal_condition.history().push(TerminalEvent::Reset),
            seed matches Some(s) ==> reset_backend_trace(
                old(self)._game_match._state_setter.history().push((SetterEvent::Seeded { seed: s })),
                final(self)._game_match._state_setter.history(),
                old(self)._game_match.sim_wrapper.log(),
                final(self)._game_match.sim_wrapper.log(),
                old(self)._game_match.game_config.team_size,
                old(self)._game_match.game_config.spawn_opponents,
            ),
            seed is None ==> reset_backend_trace(
                old(self)._game_match._state_setter.history(),
                final(self)._game_match._state_setter.history(),
                old(self)._game_match.sim_wrapper.log(),
                final(self)._game_match.sim_wrapper.log(),
                old(self)._game_match.game_config.team_size,
                old(self)._game_match.game_config.spawn_opponents,
            ),
            r matches Ok(obs) ==> {
                &&& obs@.len() == old(self)._game_match.agents
                &&& old(self)._game_match.use_single_obs
                    ==> final(self)._game_match._obs_builder@[0].history() == old(
                    self,
                )._game_match._obs_builder@[0].history().push(ObsEvent::Reset).push(
                    ObsEvent::PreStep,
                ) + obs_build_trace(final(self)._prev_state.players@, rows_of(obs@))
                &&& !old(self)._game_match.use_single_obs ==> forall|i: int|
                    0 <= i < old(self)._game_match.agents
                        ==> (#[trigger] final(self)._game_match._obs_builder@[i]).history() == old(
                        self,
                    )._game_match._obs_builder@[i].history().push(ObsEvent::Reset).push(
                        ObsEvent::PreStep,
                    ).push(
                        (ObsEvent::Build {
                            car_id: final(self)._prev_state.players@[i].car_id,
                            obs: obs@[i]@,
                        }),
                    )
                &&& !old(self)._game_match.use_single_obs ==> forall|i: int|
                    old(self)._game_match.agents <= i < old(self)._game_match._obs_builder@.len()
                        ==> (#[trigger] final(self)._game_match._obs_builder@[i]).history() == old(
                        self,
                    )._game_match._obs_builder@[i].history().push(ObsEvent::Reset).push(
                        ObsEvent::PreStep,
                    )
            },
    {
        if let Some(seed_v) = seed {
            self._game_match.set_seeds(seed_v);
        }
        let ghost setter_mid = self._game_match._state_setter.history();
        let ghost sim0 = self._game_match.sim_wrapper.log();
        let state_wrapper = self._game_match.get_reset_state(&self._prev_state);
        let state = self._game_match.sim_wrapper.force_state(state_wrapper);
        proof {
            assert(reset_backend_trace(
                setter_mid,
                self._game_match._state_setter.history(),
                sim0,
                self._game_match.sim_wrapper.log(),
                self._game_match.game_config.team_size,
                self._game_match.game_config.spawn_opponents,
            ));
        }
        self._game_match.episode_reset(&state, None);
        self._prev_state = state;
        match self._game_match.build_observations(&self._prev_state) {
            Ok(obs) => Ok(obs),
            Err(e) => Err(e),
        }
    }

    /// Advances the environment by one control step: decodes `actions`
    /// against the cached snapshot (a cardinality mismatch aborts the
    /// call), advances the backend under the decoded actions, builds one
    /// observation per agent from the new snapshot, queries termination,
    /// computes one reward per agent — episode-final rewards on the tick
    /// where the episode is done — caches the new snapshot, and reports
    /// the episode-relative result.
    pub fn step(&mut self, actions: Vec<Vec<Scalar>>) -> (r: Result<
        (Vec<Vec<Scalar>>, Vec<Scalar>, bool, StepInfo),
        EnvError,
    >)
        requires
            old(self).wf(),
        ensures
            final(self).wf(),
            final(self)._game_match.game_config == old(self)._game_match.game_config,
            final(self)._game_match.agents == old(self)._game_match.agents,
            final(self)._game_match.use_single_obs == old(self)._game_match.use_single_obs,
            r is Ok <==> (actions@.len() == old(self)._game_match.agents && (old(self)._game_match.use_single_obs || old(self)._game_match._obs_builder@.len() >= old(self)._game_match.agents)),
            actions@.len() != old(self)._game_match.agents ==> r == Err::<
                (Vec<Vec<Scalar>>, Vec<Scalar>, bool, StepInfo),
                EnvError,
            >(
                EnvError::ActionCardinality {
                    expected: old(self)._game_match.agents,
                    got: actions@.len() as usize,
                },
            ),
            r matches Ok(step_result) ==> {
                &&& step_result.0@.len() == old(self)._game_match.agents
                &&& step_result.1@.len() == old(self)._game_match.agents
                &&& step_result.2 == old(self)._game_match._terminal_condition.terminal_verdict(
                    final(self)._prev_state,
                )
                &&& step_result.3.result == final(self)._prev_state.blue_score - final(self)._prev_state.orange_score - old(self)._game_match._initial_score
                &&& final(self)._game_match._initial_score == old(self)._game_match._initial_score
                &&& final(self)._prev_state.players@.len() == old(self)._game_match.agents
                &&& final(self)._game_match._reward_fn.history() == old(self)._game_match._reward_fn.history().push(RewardEvent::PreStep) + reward_trace(
                    final(self)._prev_state.players@,
                    step_result.2,
                    step_result.1@,
                )
                &&& final(self)._game_match._terminal_condition.history() == old(
                    self,
                )._game_match._terminal_condition.history().push(
                    (TerminalEvent::TerminalQuery { verdict: step_result.2 }),
                )
                &&& old(self)._game_match.use_single_obs
                    ==> final(self)._game_match._obs_builder@[0].history() == old(self)._game_match._obs_builder@[0].history().push(ObsEvent::PreStep) + obs_build_trace(
                    final(self)._prev_state.players@,
                    rows_of(step_result.0@),
                )
                &&& rows_of(final(self)._game_match._prev_actions@) == old(
                    self,
                )._game_match._action_parser.decoded(rows_of(actions@), old(self)._prev_state)
                &&& final(self)._game_match._prev_actions@.len() == old(self)._game_match.agents
                &&& final(self)._game_match.sim_wrapper.log() == old(
                    self,
                )._game_match.sim_wrapper.log().push(
                    (SimEvent::Advanced {
                        actions: old(self)._game_match._action_parser.decoded(
                            rows_of(actions@),
                            old(self)._prev_state,
                        ),
                    }),
                )
            },
    {
        let parsed = match self._game_match.parse_actions(actions, &self._prev_state) {
            Ok(p) => p,
            Err(e) => {
                return Err(e);
            },
        };
        proof {
            assert(rows_of(self._game_match._prev_actions@).len() == rows_of(
                parsed@,
            ).len());
            assert(self._game_match._prev_actions@.len() == parsed@.len());
        }
        let state = self._game_match.sim_wrapper.advance(parsed);
        let obs = match self._game_match.build_observations(&state) {
            Ok(o) => o,
            Err(e) => {
                return Err(e);
            },
        };
        let done = self._game_match.is_done(&state);
        let reward = self._game_match.get_rewards(&state, done);
        let result: i32 = self._game_match.get_result(&state);
        self._prev_state = state;
        Ok((obs, reward, done, StepInfo { result }))
    }
}

fn copy_shape(v: &Vec<usize>) -> (r: Vec<usize>)
    ensures
        r@ == v@,
{
    let mut r: Vec<usize> = Vec::new();
    let mut i: usize = 0;
    while i < v.len()
        invariant
            i <= v@.len(),
            r@ == v@.take(i as int),
        decreases v@.len() - i,
    {
        r.push(v[i]);
        i = i + 1;
        proof {
            assert(r@ =~= v@.take(i as int));
        }
    }
    proof {
        assert(v@.take(v@.len() as int) =~= v@);
    }
    r
}

} // verus!
