//! The automaton engine, as far as a frontend asks it.
//!
//! An automaton is the caller's: its cells and its transition functions
//! are opaque here. The functions of this module hand a question on to
//! the engine; the answer is taken on trust, and nothing is claimed of it.
//! Computing a generation runs the caller's transition functions, so that
//! is left to the caller: a frontend only says when a generation is due.

use vstd::prelude::*;

verus! {

/// `lifers::engine::generic::Automaton`: an automaton over a grid of fixed
/// size that holds a cell at every position.
#[verifier::external_type_specification]
#[verifier::external_body]
#[verifier::reject_recursive_types(S)]
#[verifier::reject_recursive_types(D)]
pub struct ExGridAutomaton<S, D>(lifers::engine::generic::Automaton<S, D>);

/// `lifers::engine::life_like::Automaton`: an automaton over an unbounded
/// grid that holds cells only at populated positions.
#[verifier::external_type_specification]
#[verifier::external_body]
#[verifier::reject_recursive_types(S)]
#[verifier::reject_recursive_types(D)]
pub struct ExLifeLikeAutomaton<S, D>(lifers::engine::life_like::Automaton<S, D>);

/// `generic::Automaton::grid_size`: the number of cells in the first row
/// of the grid and the number of its rows, both zero for a grid without
/// rows. Nothing is claimed of the numbers.
#[verifier::external_body]
pub(crate) fn grid_size<S, D>(
    automaton: &lifers::engine::generic::Automaton<S, D>,
) -> (size: (usize, usize)) {
    automaton.grid_size()
}

/// `life_like::Automaton::is_finished`: whether the automaton has a limit
/// on its generations and has none of them left. Nothing is claimed of
/// the answer.
#[verifier::external_body]
pub(crate) fn is_finished<S, D>(
    automaton: &lifers::engine::life_like::Automaton<S, D>,
) -> (finished: bool) {
    automaton.is_finished()
}

} // verus!
