use vstd::prelude::*;
use crate::gamestates::game_state::GameState;
use crate::scalar::Scalar;
use crate::scalar::rows_of;

verus! {

/// Action-decoding strategy, implemented outside the core. It receives
/// one raw action vector per currently-active agent, in snapshot player
/// order, and returns one simulator-ready action vector per input, in the
/// same order — decoding never adds or drops an agent's action. Whether
/// the result matches the live player roster is checked by the
/// orchestrator, not by the parser.
///
/// The ghost function [`ActionParser::decoded`] names what this parser,
/// in its current internal state, decodes given raw actions into;
/// `parse_actions` returns exactly that, which is how the orchestrator
/// can promise its callers the parser's output, unmodified.
pub trait ActionParser: Sized {
    /// What this parser decodes `actions` into against `state`, given its
    /// current internal state.
    spec fn decoded(&self, actions: Seq<Seq<Scalar>>, state: GameState) -> Seq<Seq<Scalar>>;

    /// Ghost shape descriptor of the raw actions this parser accepts.
    spec fn action_shape(&self) -> Seq<usize>;

    /// Decodes raw agent actions against the snapshot they were chosen
    /// for: one output per input, in order, as named by
    /// [`ActionParser::decoded`].
    fn parse_actions(&mut self, actions: Vec<Vec<Scalar>>, state: &GameState) -> (parsed: Vec<
        Vec<Scalar>,
    >)
        ensures
            parsed@.len() == actions@.len(),
            rows_of(parsed@) == old(self).decoded(rows_of(actions@), *state),
    ;

    /// Reports the shape descriptor of the raw actions this parser
    /// accepts, without changing the parser.
    fn get_action_space(&mut self) -> (shape: Vec<usize>)
        ensures
            *final(self) == *old(self),
            shape@ == old(self).action_shape(),
    ;
}

} // verus!
