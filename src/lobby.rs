use vstd::prelude::*;

use crate::errors::GameInitError;
use crate::presence::{field_has_name, field_holds_name};

verus! {

/// Game speed that lobbies are created with: the fastest.
pub const GAME_SPEED_FASTEST: u32 = 6;

/// The first map-list entry, from index `from` on, whose zero-terminated name
/// is exactly `file`.
pub open spec fn first_map_named(names: Seq<Vec<u8>>, file: Seq<u8>, from: int) -> Option<int>
    decreases names.len() - from,
{
    if from < 0 || from >= names.len() {
        None
    } else if field_holds_name(names[from]@, file) {
        Some(from)
    } else {
        first_map_named(names, file, from + 1)
    }
}

/// Finds the map in the engine's map listing, given each entry's name field in
/// listing order and the map's file name in the engine's encoding; no match is
/// a missing map.
pub fn find_map_entry(entry_names: &Vec<Vec<u8>>, map_file: &[u8]) -> (r: Result<
    usize,
    GameInitError,
>)
    ensures
        match first_map_named(entry_names@, map_file@, 0) {
            Some(i) => r == Ok::<usize, GameInitError>(i as usize),
            None => r == Err::<usize, GameInitError>(GameInitError::MapNotFound),
        },
{
    let mut i: usize = 0;
    while i < entry_names.len()
        invariant
            i <= entry_names@.len(),
            first_map_named(entry_names@, map_file@, 0) == first_map_named(
                entry_names@,
                map_file@,
                i as int,
            ),
        decreases entry_names@.len() - i,
    {
        if field_has_name(&entry_names[i], map_file) {
            return Ok(i);
        }
        i = i + 1;
    }
    Err(GameInitError::MapNotFound)
}

} // verus!
