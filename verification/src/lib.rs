//! A cash-dispensing terminal modelled as a deterministic state machine.
//!
//! A session starts when a card is presented, continues with a PIN check
//! against the digest stored on the card, and ends with one bounded
//! withdrawal.  Every step is a total function from a snapshot and an event
//! to the next snapshot.

pub mod atm;
pub mod buffer;
pub mod keypad;
pub mod laws;
pub mod machine;
pub mod traits;
