//! Kiosk controller logic for a card-swipe arcade cabinet: scan-code decoding,
//! the game library index, selection and the session state machine.
use vstd::prelude::*;

pub mod device;
pub mod keys;
pub mod launch;
pub mod library;
pub mod session;
pub mod text;

verus! {

} // verus!
