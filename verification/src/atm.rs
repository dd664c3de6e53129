//! The terminal itself: its snapshots, the events it reacts to, and the
//! transition between them.
//!
//! A card swipe starts a session and hands the machine the digest of the
//! PIN.  Keys pressed are collected until the confirm key is pressed; the
//! entry is then checked as a PIN, or taken as the amount to withdraw.  A
//! wrong PIN, a withdrawal (granted or refused) and a card swiped during the
//! withdrawal entry all end the session.

use crate::buffer::{amount_within, decimal_value, digest, hash};
use crate::keypad::{return_a_key, Key};
use crate::machine::StateMachine;
use vstd::prelude::*;

verus! {

/// Something you can do to the terminal.
#[derive(Debug, PartialEq)]
pub enum Action {
    /// Swipe a card.  The value is the digest of the PIN that has to be keyed
    /// in next.
    SwipeCard(u64),
    /// Press a key on the keypad.
    PressKey(Key),
}

/// How far the authentication of the current session has come.
#[derive(Debug, PartialEq)]
pub enum Auth {
    /// No session.  The terminal waits for a card.
    Waiting,
    /// A card was swiped and gave this PIN digest.  The terminal waits for
    /// the PIN.
    Authenticating(u64),
    /// The PIN was right.  The terminal waits for the amount to withdraw.
    Authenticated,
}

impl Default for Auth {
    fn default() -> (auth: Auth)
        ensures
            auth == Auth::Waiting,
    {
        Auth::Waiting
    }
}

/// The terminal at one instant.  Withdrawals are bounded only by the cash in
/// the machine; there is no account balance.
#[derive(Debug, PartialEq)]
pub struct Atm {
    /// How much money is in the machine.
    pub cash_inside: u64,
    /// The authentication status.
    pub expected_pin_hash: Auth,
    /// The keys pressed since the last confirm or change of status.
    pub keystroke_register: Vec<Key>,
}

/// The mathematical value of a terminal.
pub struct Snapshot {
    /// The cash reserve.
    pub cash: nat,
    /// The authentication phase.
    pub phase: Auth,
    /// The keystroke buffer, oldest key first.
    pub keys: Seq<Key>,
}

impl View for Atm {
    type V = Snapshot;

    open spec fn view(&self) -> Snapshot {
        Snapshot {
            cash: self.cash_inside as nat,
            phase: self.expected_pin_hash,
            keys: self.keystroke_register@,
        }
    }
}

impl Snapshot {
    /// The snapshot that ends a session: no phase, no keys, this much cash.
    pub open spec fn idle(cash: nat) -> Snapshot {
        Snapshot { cash, phase: Auth::Waiting, keys: Seq::empty() }
    }

    /// What holds of every snapshot that a terminal reaches from its start:
    /// the confirm key is never among the keys collected, and no keys are
    /// held outside a session.
    pub open spec fn wf(self) -> bool {
        &&& forall|i: int| 0 <= i < self.keys.len() ==> self.keys[i] != Key::Enter
        &&& self.phase == Auth::Waiting ==> self.keys.len() == 0
    }
}

/// The cash left after a request for `amount`: the request is granted in
/// full or not at all.
pub open spec fn cash_after(cash: nat, amount: nat) -> nat {
    if amount <= cash {
        (cash - amount) as nat
    } else {
        cash
    }
}

/// The snapshot that follows `s` when `t` happens.
///
/// An empty withdrawal entry asks for nothing: the session ends and the
/// cash stays.  An entry too long to be paid out is refused like any other
/// amount above the reserve.
pub open spec fn transition(s: Snapshot, t: Action) -> Snapshot {
    match (s.phase, t) {
        (Auth::Waiting, Action::SwipeCard(pin_hash)) => Snapshot {
            cash: s.cash,
            phase: Auth::Authenticating(pin_hash),
            keys: Seq::empty(),
        },
        (Auth::Waiting, Action::PressKey(_)) => Snapshot::idle(s.cash),
        (Auth::Authenticating(_), Action::SwipeCard(pin_hash)) => Snapshot {
            phase: Auth::Authenticating(pin_hash),
            ..s
        },
        (Auth::Authenticating(pin_hash), Action::PressKey(Key::Enter)) => Snapshot {
            cash: s.cash,
            phase: if digest(s.keys) == pin_hash {
                Auth::Authenticated
            } else {
                Auth::Waiting
            },
            keys: Seq::empty(),
        },
        (Auth::Authenticated, Action::PressKey(Key::Enter)) => Snapshot::idle(
            cash_after(s.cash, decimal_value(s.keys)),
        ),
        (Auth::Authenticated, Action::SwipeCard(_)) => Snapshot::idle(s.cash),
        (_, Action::PressKey(k)) => Snapshot { keys: s.keys.push(k), ..s },
    }
}

/// A copy of the keys, in their order.
fn copy_keys(keys: &Vec<Key>) -> (copy: Vec<Key>)
    ensures
        copy@ == keys@,
{
    let mut copy: Vec<Key> = Vec::new();
    let mut i: usize = 0;
    while i < keys.len()
        invariant
            i <= keys.len(),
            copy@ == keys@.take(i as int),
        decreases keys.len() - i,
    {
        copy.push(return_a_key(&keys[i]));
        i += 1;
    }
    assert(keys@.take(i as int) =~= keys@);
    copy
}

impl Atm {
    /// A terminal at its start: no session, no keys, `cash_inside` in the
    /// reserve.
    pub fn new(cash_inside: u64) -> (atm: Atm)
        ensures
            atm@ == Snapshot::idle(cash_inside as nat),
            atm@.wf(),
    {
        Atm { cash_inside, expected_pin_hash: Auth::default(), keystroke_register: Vec::new() }
    }

    /// The terminal with one more key collected.
    fn collecting(&self, phase: Auth, k: &Key) -> (atm: Atm)
        ensures
            atm@ == (Snapshot { cash: self@.cash, phase, keys: self@.keys.push(*k) }),
    {
        let mut keystroke_register = copy_keys(&self.keystroke_register);
        keystroke_register.push(return_a_key(k));
        Atm { cash_inside: self.cash_inside, expected_pin_hash: phase, keystroke_register }
    }
}

impl StateMachine for Atm {
    type State = Atm;

    type Transition = Action;

    /// The terminal after `t`.  The starting state is left as it was.
    fn next_state(starting_state: &mut Atm, t: &Action) -> (next: Atm)
        ensures
            next@ == transition(old(starting_state)@, *t),
            *final(starting_state) == *old(starting_state),
            next@.cash <= old(starting_state)@.cash,
            old(starting_state)@.wf() ==> next@.wf(),
    {
        match starting_state.expected_pin_hash {
            Auth::Waiting => match t {
                Action::SwipeCard(pin_hash) => Atm {
                    cash_inside: starting_state.cash_inside,
                    expected_pin_hash: Auth::Authenticating(*pin_hash),
                    keystroke_register: Vec::new(),
                },
                Action::PressKey(_) => Atm::new(starting_state.cash_inside),
            },
            Auth::Authenticating(expected) => match t {
                Action::SwipeCard(pin_hash) => Atm {
                    cash_inside: starting_state.cash_inside,
                    expected_pin_hash: Auth::Authenticating(*pin_hash),
                    keystroke_register: copy_keys(&starting_state.keystroke_register),
                },
                Action::PressKey(Key::Enter) => {
                    if hash(&starting_state.keystroke_register) == expected {
                        Atm {
                            cash_inside: starting_state.cash_inside,
                            expected_pin_hash: Auth::Authenticated,
                            keystroke_register: Vec::new(),
                        }
                    } else {
                        Atm::new(starting_state.cash_inside)
                    }
                },
                Action::PressKey(k) => starting_state.collecting(Auth::Authenticating(expected), k),
            },
            Auth::Authenticated => match t {
                Action::PressKey(Key::Enter) => {
                    match amount_within(
                        &starting_state.keystroke_register,
                        starting_state.cash_inside,
                    ) {
                        Some(amount) => Atm::new(starting_state.cash_inside - amount),
                        None => Atm::new(starting_state.cash_inside),
                    }
                },
                Action::PressKey(k) => starting_state.collecting(Auth::Authenticated, k),
                Action::SwipeCard(_) => Atm::new(starting_state.cash_inside),
            },
        }
    }
}

} // verus!
