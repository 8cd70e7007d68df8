//! The preview card of a game console kiosk: where the card is, which way it
//! moves, and what it shows next, as selections arrive at any moment.
//!
//! - `easing`: the overshooting timing curve, in fixed point.
//! - `timeline`: a start instant and a duration, and progress along them.
//! - `controller`: the card's state machine.
//! - `config`: the table of known cards.
//! - `rfid_reader`: tokens from the card reader's key events.
//! - `session`: selection, timeout and game launch decisions.
use vstd::prelude::*;

pub mod config;
pub mod controller;
pub mod easing;
pub mod rfid_reader;
pub mod session;
pub mod timeline;

verus! {

} // verus!
