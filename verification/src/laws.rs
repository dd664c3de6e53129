//! What holds of the terminal over one transition and over any sequence of
//! them.

use crate::atm::{transition, Action, Auth, Snapshot};
use crate::keypad::Key;
use vstd::prelude::*;

verus! {

/// The snapshot reached from `s` when `actions` happen one after another.
pub open spec fn run(s: Snapshot, actions: Seq<Action>) -> Snapshot
    decreases actions.len(),
{
    if actions.len() == 0 {
        s
    } else {
        transition(run(s, actions.drop_last()), actions.last())
    }
}

/// The actions of pressing `keys` one after another.
pub open spec fn presses(keys: Seq<Key>) -> Seq<Action> {
    Seq::new(keys.len(), |i: int| Action::PressKey(keys[i]))
}

/// Whether none of `keys` is the confirm key.
pub open spec fn no_confirm(keys: Seq<Key>) -> bool {
    forall|i: int| 0 <= i < keys.len() ==> keys[i] != Key::Enter
}

/// Whether two phases are the same stage of a session, whatever digest they
/// carry.
pub open spec fn same_stage(a: Auth, b: Auth) -> bool {
    ||| a is Waiting && b is Waiting
    ||| a is Authenticating && b is Authenticating
    ||| a is Authenticated && b is Authenticated
}

/// Outside a session every key is ignored: the terminal stays as it is,
/// with no keys collected, however often a key is pressed.
pub proof fn lemma_idle_ignores_key(s: Snapshot, k: Key)
    requires
        s.phase == Auth::Waiting,
    ensures
        transition(s, Action::PressKey(k)) == (Snapshot { keys: Seq::empty(), ..s }),
        s.keys.len() == 0 ==> transition(s, Action::PressKey(k)) == s,
        transition(transition(s, Action::PressKey(k)), Action::PressKey(k)) == transition(
            s,
            Action::PressKey(k),
        ),
{
    assert(s.keys.len() == 0 ==> s.keys =~= Seq::<Key>::empty());
}

/// Outside a session any sequence of keys is ignored.
pub proof fn lemma_idle_ignores_presses(s: Snapshot, keys: Seq<Key>)
    requires
        s.phase == Auth::Waiting,
        keys.len() > 0,
    ensures
        run(s, presses(keys)) == Snapshot::idle(s.cash),
    decreases keys.len(),
{
    let actions = presses(keys);
    assert(actions.drop_last() =~= presses(keys.drop_last()));
    if keys.len() > 1 {
        lemma_idle_ignores_presses(s, keys.drop_last());
    } else {
        assert(run(s, actions.drop_last()) == s);
    }
}

/// During a session, keys other than the confirm key are collected in the
/// order in which they are pressed, behind those already held; nothing else
/// changes.  After a fresh start of the entry the keys held are exactly the
/// keys pressed.
pub proof fn lemma_presses_accumulate(s: Snapshot, keys: Seq<Key>)
    requires
        s.phase != Auth::Waiting,
        no_confirm(keys),
    ensures
        run(s, presses(keys)) == (Snapshot { keys: s.keys + keys, ..s }),
        s.keys.len() == 0 ==> run(s, presses(keys)).keys == keys,
    decreases keys.len(),
{
    let actions = presses(keys);
    if keys.len() == 0 {
        assert(s.keys + keys =~= s.keys);
    } else {
        let front = keys.drop_last();
        assert(actions.drop_last() =~= presses(front));
        lemma_presses_accumulate(s, front);
        assert(actions.last() == Action::PressKey(keys.last()));
        assert((s.keys + front).push(keys.last()) =~= s.keys + keys);
    }
    assert(s.keys.len() == 0 ==> s.keys + keys =~= keys);
}

/// No transition adds cash to the reserve.
pub proof fn lemma_transition_cash(s: Snapshot, t: Action)
    ensures
        transition(s, t).cash <= s.cash,
{
}

/// The cash reserve never grows, whatever happens and however often; being
/// a natural number, it never falls below zero either.
pub proof fn lemma_run_cash(s: Snapshot, actions: Seq<Action>)
    ensures
        run(s, actions).cash <= s.cash,
    decreases actions.len(),
{
    if actions.len() > 0 {
        lemma_run_cash(s, actions.drop_last());
        lemma_transition_cash(run(s, actions.drop_last()), actions.last());
    }
}

/// A transition that moves the session to another stage leaves no keys
/// behind.
pub proof fn lemma_stage_change_clears_keys(s: Snapshot, t: Action)
    ensures
        !same_stage(s.phase, transition(s, t).phase) ==> transition(s, t).keys
            == Seq::<Key>::empty(),
{
}

/// A well-formed snapshot is followed by a well-formed snapshot.
pub proof fn lemma_transition_wf(s: Snapshot, t: Action)
    requires
        s.wf(),
    ensures
        transition(s, t).wf(),
{
}

/// Every snapshot reached from a well-formed one is well-formed.
pub proof fn lemma_run_wf(s: Snapshot, actions: Seq<Action>)
    requires
        s.wf(),
    ensures
        run(s, actions).wf(),
    decreases actions.len(),
{
    if actions.len() > 0 {
        lemma_run_wf(s, actions.drop_last());
        lemma_transition_wf(run(s, actions.drop_last()), actions.last());
    }
}

} // verus!
