use rlgym::action_parsers::action_parser::ActionParser;
use rlgym::conditionals::terminal_condition::TerminalCondition;
use rlgym::conditionals::terminal_condition::TerminalEvent;
use rlgym::envs::game_match::ACTION_DOF;
use rlgym::envs::game_match::EnvError;
use rlgym::envs::game_match::GameConfig;
use rlgym::envs::game_match::GameMatch;
use rlgym::envs::game_match::SPECTATOR_SLOTS;
use rlgym::envs::game_match::Stats;
use rlgym::gamestates::game_state::GameState;
use rlgym::gamestates::player_data::PlayerData;
use rlgym::gym::Gym;
use rlgym::make::MakeConfig;
use rlgym::obs_builders::obs_builder::ObsBuilder;
use rlgym::reward_functions::reward_fn::RewardFn;
use rlgym::scalar::Scalar;
use rlgym::scalar::UNIT_BITS;
use rlgym::sim_wrapper::CarConfig;
use rlgym::sim_wrapper::SimBackend;
use rlgym::sim_wrapper::SimEvent;
use rlgym::state_setters::state_setter::SetterEvent;
use rlgym::state_setters::state_setter::StateSetter;
use rlgym::state_setters::state_wrapper::CarWrapper;
use rlgym::state_generator::state_modifier::StateModifier;
use rlgym::state_setters::state_wrapper::StateWrapper;
use vstd::prelude::*;


struct CountingObs {
    resets: usize,
    pre_steps: usize,
    builds: Vec<i32>,
}

impl CountingObs {
    fn new() -> CountingObs {
        CountingObs { resets: 0, pre_steps: 0, builds: Vec::new() }
    }
}

impl ObsBuilder for CountingObs {
    // Ghost members of the verified trait; never called at runtime.
    fn history(&self) -> Seq<rlgym::obs_builders::obs_builder::ObsEvent> {
        panic!()
    }

    fn obs_shape(&self) -> Seq<usize> {
        panic!()
    }

    fn reset(&mut self, _initial_state: &GameState) {
        self.resets += 1;
    }

    fn pre_step(&mut self, _state: &GameState, _config: &GameConfig) {
        self.pre_steps += 1;
    }

    fn build_obs(
        &mut self,
        player: &PlayerData,
        _state: &GameState,
        _config: &GameConfig,
    ) -> Vec<Scalar> {
        self.builds.push(player.car_id);
        vec![Scalar { bits: player.car_id as u32 }]
    }

    fn get_obs_space(&mut self) -> Vec<usize> {
        vec![1]
    }
}

struct StageReward {
    regulars: usize,
    finals: usize,
}

impl RewardFn for StageReward {
    // Ghost member of the verified trait; never called at runtime.
    fn history(&self) -> Seq<rlgym::reward_functions::reward_fn::RewardEvent> {
        panic!()
    }

    fn reset(&mut self, _initial_state: &GameState, _reward_stage: Option<usize>) {}

    fn pre_step(&mut self, _state: &GameState) {}

    fn get_reward(&mut self, _player: &PlayerData, _state: &GameState) -> Scalar {
        self.regulars += 1;
        Scalar { bits: 1 }
    }

    fn get_final_reward(&mut self, _player: &PlayerData, _state: &GameState) -> Scalar {
        self.finals += 1;
        Scalar { bits: 2 }
    }
}

/// Terminal as soon as blue has scored.
struct ScoreTerminal;

impl TerminalCondition for ScoreTerminal {
    // Ghost members of the verified trait; never called at runtime.
    fn history(&self) -> Seq<TerminalEvent> {
        panic!()
    }

    fn terminal_verdict(&self, _state: GameState) -> bool {
        panic!()
    }

    fn truncated_verdict(&self, _state: GameState) -> bool {
        panic!()
    }

    fn reset(&mut self, _initial_state: &GameState) {}

    fn is_terminal(&mut self, state: &GameState) -> bool {
        state.blue_score > 0
    }

    fn is_truncated(&mut self, _state: &GameState) -> bool {
        false
    }
}

/// Hands raw actions through unchanged.
struct PassParser;

impl ActionParser for PassParser {
    // Ghost members of the verified trait; never called at runtime.
    fn decoded(&self, _actions: Seq<Seq<Scalar>>, _state: GameState) -> Seq<Seq<Scalar>> {
        panic!()
    }

    fn action_shape(&self) -> Seq<usize> {
        panic!()
    }

    fn parse_actions(&mut self, actions: Vec<Vec<Scalar>>, _state: &GameState) -> Vec<Vec<Scalar>> {
        actions
    }

    fn get_action_space(&mut self) -> Vec<usize> {
        vec![ACTION_DOF]
    }
}

/// Drops one parsed action, breaking the roster cardinality.
struct DroppingParser;

impl ActionParser for DroppingParser {
    // Ghost members of the verified trait; never called at runtime.
    fn decoded(&self, _actions: Seq<Seq<Scalar>>, _state: GameState) -> Seq<Seq<Scalar>> {
        panic!()
    }

    fn action_shape(&self) -> Seq<usize> {
        panic!()
    }

    fn parse_actions(
        &mut self,
        mut actions: Vec<Vec<Scalar>>,
        _state: &GameState,
    ) -> Vec<Vec<Scalar>> {
        actions.pop();
        actions
    }

    fn get_action_space(&mut self) -> Vec<usize> {
        vec![ACTION_DOF]
    }
}

struct BasicSetter;

impl StateSetter for BasicSetter {
    // Ghost member of the verified trait; never called at runtime.
    fn history(&self) -> Seq<SetterEvent> {
        panic!()
    }

    fn build_wrapper(
        &mut self,
        max_team_size: usize,
        spawn_opponents: bool,
        _seed_state: Option<&GameState>,
    ) -> StateWrapper {
        let n = if spawn_opponents { max_team_size * 2 } else { max_team_size };
        let mut cars = Vec::new();
        for k in 0..n {
            cars.push(CarWrapper {
                id: (k + 1) as i32,
                team_num: (k % 2) as i32,
                boost: Scalar { bits: 0 },
            });
        }
        StateWrapper { cars }
    }

    fn reset(&mut self, state: &mut StateWrapper) {
        for car in state.cars.iter_mut() {
            car.boost = Scalar { bits: 0x3f00_0000 };
        }
    }

    fn set_seed(&mut self, _seed: u64) {}
}

/// In-memory stand-in for the simulation backend: keeps a roster and two
/// scores, and can be told what blue's score becomes on the next advance.
struct FakeSim {
    players: Vec<PlayerData>,
    blue: i32,
    orange: i32,
    pending_blue: Option<i32>,
}

impl FakeSim {
    fn new() -> FakeSim {
        FakeSim { players: Vec::new(), blue: 0, orange: 0, pending_blue: None }
    }

    fn snapshot(&self) -> GameState {
        GameState {
            players: self.players.clone(),
            blue_score: self.blue,
            orange_score: self.orange,
        }
    }
}

impl SimBackend for FakeSim {
    // Ghost members of the verified trait; never called at runtime.
    fn roster(&self) -> nat {
        panic!()
    }

    fn log(&self) -> Seq<SimEvent> {
        panic!()
    }

    fn force_state(&mut self, wrapper: StateWrapper) -> GameState {
        self.players = wrapper
            .cars
            .iter()
            .map(|c| PlayerData { car_id: c.id, team_num: c.team_num })
            .collect();
        self.blue = 0;
        self.orange = 0;
        self.snapshot()
    }

    fn advance(&mut self, _actions: Vec<Vec<Scalar>>) -> GameState {
        if let Some(b) = self.pending_blue.take() {
            self.blue = b;
        }
        self.snapshot()
    }

    fn current_state(&mut self) -> GameState {
        self.snapshot()
    }

    fn reconfigure(&mut self, config: GameConfig, _restart: bool) -> GameState {
        let n = if config.spawn_opponents { config.team_size * 2 } else { config.team_size };
        self.players = (0..n)
            .map(|k| PlayerData { car_id: (k + 1) as i32, team_num: (k % 2) as i32 })
            .collect();
        self.snapshot()
    }
}

type TestMatch = GameMatch<StageReward, ScoreTerminal, CountingObs, PassParser, BasicSetter, FakeSim>;
type TestGym = Gym<StageReward, ScoreTerminal, CountingObs, PassParser, BasicSetter, FakeSim>;

fn config_for(team_size: usize, spawn_opponents: bool) -> GameConfig {
    let mut c = GameConfig::default();
    c.team_size = team_size;
    c.spawn_opponents = spawn_opponents;
    c
}

fn make_match(team_size: usize, spawn_opponents: bool, use_single_obs: bool, builders: usize) -> TestMatch {
    let mut obs = Vec::new();
    for _ in 0..builders {
        obs.push(CountingObs::new());
    }
    let mc = MakeConfig {
        game_config: config_for(team_size, spawn_opponents),
        reward_fn: StageReward { regulars: 0, finals: 0 },
        terminal_condition: ScoreTerminal,
        obs_builder: obs,
        action_parser: PassParser,
        state_setter: BasicSetter,
        use_single_obs,
    };
    GameMatch::new(mc, FakeSim::new())
}

fn make_gym(team_size: usize, spawn_opponents: bool, use_single_obs: bool, builders: usize) -> TestGym {
    Gym::new(make_match(team_size, spawn_opponents, use_single_obs, builders))
}

fn mk_actions(n: usize) -> Vec<Vec<Scalar>> {
    (0..n).map(|_| vec![Scalar { bits: 0 }; ACTION_DOF]).collect()
}

#[test]
fn agent_count_with_opponents() {
    let gm = make_match(1, true, true, 1);
    assert_eq!(gm.agents, 2);
    let gm3 = make_match(3, true, true, 1);
    assert_eq!(gm3.agents, 6);
}

#[test]
fn agent_count_without_opponents() {
    let gm = make_match(3, false, true, 1);
    assert_eq!(gm.agents, 3);
    let gm1 = make_match(1, false, true, 1);
    assert_eq!(gm1.agents, 1);
}

#[test]
fn default_config_values() {
    let c = GameConfig::default();
    assert_eq!(c.team_size, 1);
    assert_eq!(c.tick_skip, 8);
    assert!(c.spawn_opponents);
    assert_eq!(c.gravity, Scalar { bits: UNIT_BITS });
    assert_eq!(c.boost_consumption, Scalar { bits: UNIT_BITS });
    assert_eq!(c.car_config, CarConfig::octane());
}

#[test]
fn new_match_starts_zeroed() {
    let gm = make_match(2, true, false, 4);
    assert_eq!(gm._spectator_ids, vec![0; SPECTATOR_SLOTS]);
    assert_eq!(gm._initial_score, 0);
    assert_eq!(gm._prev_actions.len(), 4);
    for a in &gm._prev_actions {
        assert_eq!(a, &vec![Scalar { bits: 0 }; ACTION_DOF]);
    }
    // Shape descriptors are auto-detected at construction.
    assert_eq!(gm.observation_space, vec![1]);
    assert_eq!(gm.action_space, vec![ACTION_DOF]);
}

#[test]
fn shape_descriptors_are_auto_detected() {
    let gym = make_gym(1, true, true, 1);
    assert_eq!(gym.observation_space, vec![1]);
    assert_eq!(gym.action_space, vec![ACTION_DOF]);
}

#[test]
fn reset_returns_one_observation_per_agent() {
    let mut gym = make_gym(2, true, true, 1);
    let obs = gym.reset(None, None).unwrap();
    assert_eq!(obs.len(), 4);
}

#[test]
fn step_returns_agent_count_observations_and_rewards() {
    let mut gym = make_gym(2, true, true, 1);
    gym.reset(None, None).unwrap();
    let (obs, rewards, done, _info) = gym.step(mk_actions(4)).unwrap();
    assert_eq!(obs.len(), 4);
    assert_eq!(rewards.len(), 4);
    assert!(!done);
}

#[test]
fn one_versus_one_scenario() {
    let mut gym = make_gym(1, true, true, 1);
    assert_eq!(gym._game_match.agents, 2);
    let obs = gym.reset(None, None).unwrap();
    assert_eq!(obs.len(), 2);
    let (step_obs, rewards, done, _info) = gym.step(mk_actions(2)).unwrap();
    assert_eq!(step_obs.len(), 2);
    assert_eq!(rewards.len(), 2);
    assert!(!done);
}

#[test]
fn result_reflects_episode_relative_score() {
    let mut gym = make_gym(1, true, true, 1);
    gym.reset(None, None).unwrap();
    assert_eq!(gym._prev_state.blue_score, 0);
    assert_eq!(gym._prev_state.orange_score, 0);
    gym._game_match.sim_wrapper.pending_blue = Some(1);
    let (_obs, _rewards, _done, info) = gym.step(mk_actions(2)).unwrap();
    assert_eq!(info.result, 1);
}

#[test]
fn get_result_subtracts_initial_score() {
    let mut gm = make_match(1, true, true, 1);
    let initial = GameState {
        players: vec![
            PlayerData { car_id: 7, team_num: 0 },
            PlayerData { car_id: 9, team_num: 1 },
        ],
        blue_score: 2,
        orange_score: 1,
    };
    gm.episode_reset(&initial, None);
    assert_eq!(gm._initial_score, 1);
    let later = GameState {
        players: initial.players.clone(),
        blue_score: 4,
        orange_score: 1,
    };
    assert_eq!(gm.get_result(&later), 2);
}

#[test]
fn episode_reset_recomputes_bookkeeping() {
    let mut gm = make_match(1, true, true, 1);
    let state = GameState {
        players: vec![
            PlayerData { car_id: 7, team_num: 0 },
            PlayerData { car_id: 9, team_num: 1 },
        ],
        blue_score: 0,
        orange_score: 0,
    };
    gm.episode_reset(&state, None);
    assert_eq!(gm._spectator_ids, vec![7, 9]);
    assert_eq!(gm._prev_actions.len(), 2);
    for a in &gm._prev_actions {
        assert_eq!(a, &vec![Scalar { bits: 0 }; ACTION_DOF]);
    }
    assert_eq!(gm._obs_builder[0].resets, 1);
}

#[test]
fn shared_builder_pre_step_once_per_tick_builds_once_per_agent() {
    let mut gym = make_gym(1, true, true, 1);
    // Construction already ran one reset, so one pre_step and one build
    // round have happened.
    let after_new_pre = gym._game_match._obs_builder[0].pre_steps;
    let after_new_builds = gym._game_match._obs_builder[0].builds.len();
    assert_eq!(after_new_pre, 1);
    assert_eq!(after_new_builds, 2);

    gym.reset(None, None).unwrap();
    assert_eq!(gym._game_match._obs_builder[0].pre_steps, 2);
    assert_eq!(gym._game_match._obs_builder[0].builds.len(), 4);

    gym.step(mk_actions(2)).unwrap();
    let b = &gym._game_match._obs_builder[0];
    assert_eq!(b.pre_steps, 3);
    // One build per agent per tick, in snapshot player order.
    assert_eq!(b.builds, vec![1, 2, 1, 2, 1, 2]);
}

#[test]
fn per_slot_builders_zip_in_player_order() {
    let mut gym = make_gym(1, true, false, 2);
    gym.reset(None, None).unwrap();
    let (obs, _rewards, _done, _info) = gym.step(mk_actions(2)).unwrap();
    assert_eq!(obs.len(), 2);
    let b0 = &gym._game_match._obs_builder[0];
    let b1 = &gym._game_match._obs_builder[1];
    // Each slot's builder serves exactly its own player.
    assert!(b0.builds.iter().all(|&id| id == 1));
    assert!(b1.builds.iter().all(|&id| id == 2));
    assert_eq!(b0.pre_steps, b1.pre_steps);
}

#[test]
fn action_cardinality_mismatch_aborts_step() {
    let mut gym = make_gym(1, true, true, 1);
    gym.reset(None, None).unwrap();
    let before = gym._game_match._prev_actions.clone();
    let r = gym.step(mk_actions(3));
    assert_eq!(r.err(), Some(EnvError::ActionCardinality { expected: 2, got: 3 }));
    // Nothing was truncated or padded into the previous-action cache.
    assert_eq!(gym._game_match._prev_actions, before);
}

#[test]
fn parser_that_breaks_cardinality_is_fatal() {
    let mc = MakeConfig {
        game_config: config_for(1, true),
        reward_fn: StageReward { regulars: 0, finals: 0 },
        terminal_condition: ScoreTerminal,
        obs_builder: vec![CountingObs::new()],
        action_parser: DroppingParser,
        state_setter: BasicSetter,
        use_single_obs: true,
    };
    let mut gm = GameMatch::new(mc, FakeSim::new());
    let state = GameState {
        players: vec![
            PlayerData { car_id: 1, team_num: 0 },
            PlayerData { car_id: 2, team_num: 1 },
        ],
        blue_score: 0,
        orange_score: 0,
    };
    let r = gm.parse_actions(mk_actions(2), &state);
    assert_eq!(r.err(), Some(EnvError::ActionCardinality { expected: 2, got: 1 }));
}

#[test]
fn successful_parse_caches_previous_actions() {
    let mut gym = make_gym(1, true, true, 1);
    gym.reset(None, None).unwrap();
    let mut actions = mk_actions(2);
    actions[1][0] = Scalar { bits: 42 };
    gym.step(actions.clone()).unwrap();
    assert_eq!(gym._game_match._prev_actions, actions);
}

#[test]
fn terminal_tick_uses_final_reward_for_every_agent() {
    let mut gym = make_gym(1, true, true, 1);
    gym.reset(None, None).unwrap();
    let (_obs, rewards, done, _info) = gym.step(mk_actions(2)).unwrap();
    assert!(!done);
    assert_eq!(rewards, vec![Scalar { bits: 1 }, Scalar { bits: 1 }]);
    assert_eq!(gym._game_match._reward_fn.finals, 0);

    gym._game_match.sim_wrapper.pending_blue = Some(1);
    let (_obs, rewards, done, _info) = gym.step(mk_actions(2)).unwrap();
    assert!(done);
    assert_eq!(rewards, vec![Scalar { bits: 2 }, Scalar { bits: 2 }]);
    assert_eq!(gym._game_match._reward_fn.finals, 2);
    assert_eq!(gym._game_match._reward_fn.regulars, 2);
}

#[test]
fn update_settings_recomputes_agent_count_immediately() {
    let mut gym = make_gym(1, true, true, 1);
    gym.reset(None, None).unwrap();
    assert_eq!(gym._game_match.agents, 2);
    let new_config = config_for(2, true);
    let state = gym._game_match.update_settings(new_config, None).unwrap();
    assert_eq!(gym._game_match.agents, 4);
    assert_eq!(state.players.len(), 4);
    gym._prev_state = state;
    let (obs, rewards, _done, _info) = gym.step(mk_actions(4)).unwrap();
    assert_eq!(obs.len(), 4);
    assert_eq!(rewards.len(), 4);
}

#[test]
fn update_settings_rejects_invalid_config() {
    let mut gym = make_gym(1, true, true, 1);
    let mut bad = config_for(0, true);
    bad.team_size = 0;
    let r = gym._game_match.update_settings(bad, None);
    assert_eq!(r.err(), Some(EnvError::InvalidConfig));
    assert_eq!(gym._game_match.agents, 2);
    assert_eq!(gym._game_match.get_config().team_size, 1);

    let huge = config_for(usize::MAX, true);
    let r2 = gym._game_match.update_settings(huge, None);
    assert_eq!(r2.err(), Some(EnvError::InvalidConfig));
}

#[test]
fn update_settings_can_replace_builders() {
    let mut gym = make_gym(1, true, false, 2);
    let new_config = config_for(2, true);
    let builders = vec![
        CountingObs::new(),
        CountingObs::new(),
        CountingObs::new(),
        CountingObs::new(),
    ];
    let state = gym._game_match.update_settings(new_config, Some(builders)).unwrap();
    assert_eq!(gym._game_match._obs_builder.len(), 4);
    gym._prev_state = state;
    let (obs, _rewards, _done, _info) = gym.step(mk_actions(4)).unwrap();
    assert_eq!(obs.len(), 4);
}

#[test]
fn too_few_builders_in_per_slot_mode_is_fatal() {
    let mut gym = make_gym(1, true, false, 2);
    gym.reset(None, None).unwrap();
    let state = gym._game_match.update_settings(config_for(2, true), None).unwrap();
    gym._prev_state = state;
    let r = gym.step(mk_actions(4));
    assert_eq!(r.err(), Some(EnvError::ObsBuilderShortfall { builders: 2, players: 4 }));
}

#[test]
fn is_done_and_is_truncated_delegate() {
    let mut gm = make_match(1, true, true, 1);
    let quiet = GameState {
        players: Vec::new(),
        blue_score: 0,
        orange_score: 0,
    };
    let scored = GameState {
        players: Vec::new(),
        blue_score: 1,
        orange_score: 0,
    };
    assert!(!gm.is_done(&quiet));
    assert!(gm.is_done(&scored));
    assert!(!gm.is_truncated(&scored));
}

#[test]
fn get_state_queries_the_backend() {
    let mut gym = make_gym(1, true, true, 1);
    gym.reset(None, None).unwrap();
    let s = gym._game_match.get_state();
    assert_eq!(s.players.len(), 2);
    assert_eq!(s.blue_score, 0);
}

#[test]
fn reset_accepts_a_seed() {
    let mut gym = make_gym(1, true, true, 1);
    let obs = gym.reset(None, Some(1234)).unwrap();
    assert_eq!(obs.len(), 2);
}

#[test]
fn stats_type_stays_available() {
    let s = Stats::default();
    assert_eq!(s.goals, 0);
    assert_eq!(s.own_goals, 0);
    assert_eq!(s.assists, 0);
}

#[test]
fn scalar_encodings() {
    assert_eq!(Scalar::zero(), Scalar { bits: 0 });
    assert_eq!(Scalar::one(), Scalar { bits: UNIT_BITS });
    assert_eq!(f32::from_bits(Scalar::zero().bits), 0.0f32);
    assert_eq!(f32::from_bits(Scalar::one().bits), 1.0f32);
}

#[test]
fn state_setter_shapes_the_reset_roster() {
    let mut gm = make_match(3, false, true, 1);
    let prev = GameState { players: Vec::new(), blue_score: 0, orange_score: 0 };
    let wrapper = gm.get_reset_state(&prev);
    assert_eq!(wrapper.cars.len(), 3);
    let mut gm2 = make_match(2, true, true, 1);
    let wrapper2 = gm2.get_reset_state(&prev);
    assert_eq!(wrapper2.cars.len(), 4);
}

struct MirrorScores;

impl StateModifier for MirrorScores {
    fn modify_state(&mut self, state: GameState) -> GameState {
        GameState {
            players: state.players,
            blue_score: state.orange_score,
            orange_score: state.blue_score,
        }
    }
}

#[test]
fn state_modifier_rewrites_a_snapshot() {
    let mut m = MirrorScores;
    let s = GameState {
        players: vec![PlayerData { car_id: 1, team_num: 0 }],
        blue_score: 3,
        orange_score: 1,
    };
    let out = m.modify_state(s);
    assert_eq!(out.blue_score, 1);
    assert_eq!(out.orange_score, 3);
    assert_eq!(out.players.len(), 1);
}

#[test]
fn empty_roster_builds_no_observations() {
    let mut gm = make_match(1, true, true, 1);
    let empty = GameState { players: Vec::new(), blue_score: 0, orange_score: 0 };
    let before = gm._obs_builder[0].pre_steps;
    let obs = gm.build_observations(&empty).unwrap();
    assert!(obs.is_empty());
    // The shared builder is still prepared exactly once for the tick.
    assert_eq!(gm._obs_builder[0].pre_steps, before + 1);
}

#[test]
fn reset_after_terminal_episode_starts_fresh() {
    let mut gym = make_gym(1, true, true, 1);
    gym.reset(None, None).unwrap();
    gym._game_match.sim_wrapper.pending_blue = Some(1);
    let (_obs, _rewards, done, info) = gym.step(mk_actions(2)).unwrap();
    assert!(done);
    assert_eq!(info.result, 1);

    let obs = gym.reset(None, None).unwrap();
    assert_eq!(obs.len(), 2);
    assert_eq!(gym._game_match._initial_score, 0);
    let (_obs, _rewards, done, info) = gym.step(mk_actions(2)).unwrap();
    assert!(!done);
    assert_eq!(info.result, 0);
}

#[test]
fn observations_are_the_built_ones() {
    let mut gym = make_gym(1, true, true, 1);
    let obs = gym.reset(None, None).unwrap();
    // CountingObs encodes each player's identifier into the observation.
    assert_eq!(obs[0], vec![Scalar { bits: 1 }]);
    assert_eq!(obs[1], vec![Scalar { bits: 2 }]);
    let (step_obs, _rewards, _done, _info) = gym.step(mk_actions(2)).unwrap();
    assert_eq!(step_obs[0], vec![Scalar { bits: 1 }]);
    assert_eq!(step_obs[1], vec![Scalar { bits: 2 }]);
}

#[test]
fn parse_returns_the_parsers_output() {
    let mut gm = make_match(1, true, true, 1);
    let state = GameState {
        players: vec![
            PlayerData { car_id: 1, team_num: 0 },
            PlayerData { car_id: 2, team_num: 1 },
        ],
        blue_score: 0,
        orange_score: 0,
    };
    let mut actions = mk_actions(2);
    actions[0][3] = Scalar { bits: 9 };
    let parsed = gm.parse_actions(actions.clone(), &state).unwrap();
    // The pass-through parser's output comes back unmodified.
    assert_eq!(parsed, actions);
    assert_eq!(gm._prev_actions, actions);
}
