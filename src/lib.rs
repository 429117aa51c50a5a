//! Setup of a multiplayer match in an engine that this process does not own:
//! resolving the request, populating the engine's player table, reconciling who
//! is present, and the state machines that order it all.

use vstd::prelude::*;

pub mod errors;
pub mod finalize;
pub mod game_type;
pub mod lobby;
pub mod pipeline;
pub mod presence;
pub mod setup;
pub mod slots;
pub mod state;
pub mod text;

verus! {

} // verus!
