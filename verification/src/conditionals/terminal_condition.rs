use vstd::prelude::*;
use crate::gamestates::game_state::GameState;

verus! {

/// One entry of a terminal condition's call history, newest last.
pub enum TerminalEvent {
    /// An episode-start `reset`.
    Reset,
    /// An `is_terminal` query that returned this verdict.
    TerminalQuery { verdict: bool },
    /// An `is_truncated` query that returned this verdict.
    TruncatedQuery { verdict: bool },
}

/// Termination strategy, implemented outside the core. Both predicates
/// are queried independently every tick; termination and truncation are
/// not mutually exclusive.
///
/// The two verdict spec functions give what each predicate returns for a
/// snapshot given the condition's current internal state, so callers can
/// reason about what a query returned. An implementation also exposes its
/// call history as the ghost sequence [`TerminalCondition::history`], and
/// each operation appends exactly its own event; the orchestrator's
/// contracts state over it that the condition is reset once per episode
/// and queried as the tick demands.
pub trait TerminalCondition {
    /// Ghost history of the calls made to this instance, oldest first.
    spec fn history(&self) -> Seq<TerminalEvent>;

    /// Whether this condition, in its current internal state, regards
    /// `state` as terminal.
    spec fn terminal_verdict(&self, state: GameState) -> bool;

    /// Whether this condition, in its current internal state, regards the
    /// episode as truncated at `state`.
    spec fn truncated_verdict(&self, state: GameState) -> bool;

    /// Called once at the start of each episode.
    fn reset(&mut self, initial_state: &GameState)
        ensures
            final(self).history() == old(self).history().push(TerminalEvent::Reset),
    ;

    /// Queried once per tick.
    fn is_terminal(&mut self, state: &GameState) -> (r: bool)
        ensures
            r == old(self).terminal_verdict(*state),
            final(self).history() == old(self).history().push(
                (TerminalEvent::TerminalQuery { verdict: r }),
            ),
    ;

    /// Queried once per tick, independently of [`Self::is_terminal`].
    fn is_truncated(&mut self, state: &GameState) -> (r: bool)
        ensures
            r == old(self).truncated_verdict(*state),
            final(self).history() == old(self).history().push(
                (TerminalEvent::TruncatedQuery { verdict: r }),
            ),
    ;
}

} // verus!
