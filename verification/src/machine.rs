//! The shape that every state machine of this crate has.

use vstd::prelude::*;

verus! {

/// A state machine: a set of states, a set of transitions, and the rule that
/// gives the state after a transition.
pub trait StateMachine {
    /// The states of the machine.
    type State;

    /// What can happen to the machine.
    type Transition;

    /// The state that follows `starting_state` when `t` happens.
    fn next_state(starting_state: &mut Self::State, t: &Self::Transition) -> Self::State;
}

} // verus!
