use vstd::prelude::*;

use crate::presence::{all_present, first_session_named, session_id_of};
use crate::setup::{GameSetupInfo, PlayerInfo};

verus! {

/// Command code of the lobby game-init packet.
pub const GAME_INIT_COMMAND: u8 = 0x48;
/// Placeholder save-game byte of every player; saved games are not resumed.
pub const PLAYER_BYTE_PLACEHOLDER: u8 = 8;
/// Lobby state while game init is being finalized.
pub const LOBBY_STATE_FINALIZING: u32 = 8;
/// Lobby state once the match is ready to start.
pub const LOBBY_STATE_READY: u32 = 9;
/// Session id that the game-init packet is handed over as coming from: the host.
pub const HOST_STORM_ID: u32 = 0;

/// The lobby game-init packet, as the host would send it.
#[derive(Clone, Copy, PartialEq, Eq, Debug)]
pub struct LobbyGameInitData {
    pub game_init_command: u8,
    pub random_seed: u32,
    pub player_bytes: [u8; 8],
}

/// What finalizing lobby game init writes into the engine, in order: network
/// player info for each session id, then the game-init packet.
#[derive(Clone, PartialEq, Eq, Debug)]
pub struct LobbyInitPlan {
    pub storm_ids: Vec<u32>,
    pub packet: LobbyGameInitData,
}

/// The session ids to initialize, for the first `n` slots: each human or
/// observer slot's first session id, in slot order.
pub open spec fn init_ids_upto(slots: Seq<PlayerInfo>, names: Seq<Option<String>>, n: int) -> Seq<
    u32,
>
    decreases n,
{
    if n <= 0 {
        Seq::empty()
    } else if slots[n - 1].spec_is_awaited() {
        init_ids_upto(slots, names, n - 1).push(
            first_session_named(names, slots[n - 1].name@, 0)->Some_0 as u32,
        )
    } else {
        init_ids_upto(slots, names, n - 1)
    }
}

pub open spec fn init_ids(slots: Seq<PlayerInfo>, names: Seq<Option<String>>) -> Seq<u32> {
    init_ids_upto(slots, names, slots.len() as int)
}

/// Plans lobby game-init finalization once every awaited participant is present.
pub fn do_lobby_game_init(info: &GameSetupInfo, storm_names: &Vec<Option<String>>) -> (r:
    LobbyInitPlan)
    requires
        all_present(info.slots@, storm_names@),
        storm_names@.len() <= u32::MAX,
    ensures
        r.storm_ids@ == init_ids(info.slots@, storm_names@),
        r.packet.game_init_command == GAME_INIT_COMMAND,
        r.packet.random_seed == info.seed,
        forall|i: int| 0 <= i < 8 ==> r.packet.player_bytes@[i] == PLAYER_BYTE_PLACEHOLDER,
{
    let mut ids: Vec<u32> = Vec::new();
    let mut j: usize = 0;
    while j < info.slots.len()
        invariant
            j <= info.slots@.len(),
            all_present(info.slots@, storm_names@),
            storm_names@.len() <= u32::MAX,
            ids@ == init_ids_upto(info.slots@, storm_names@, j as int),
        decreases info.slots@.len() - j,
    {
        let slot = &info.slots[j];
        if slot.is_human() || slot.is_observer() {
            assert(info.slots@[j as int].spec_is_awaited());
            match session_id_of(storm_names, &slot.name) {
                Some(i) => {
                    ids.push(i as u32);
                },
                None => {
                    assert(false);
                },
            }
        }
        j = j + 1;
    }
    let player_bytes: [u8; 8] = [PLAYER_BYTE_PLACEHOLDER; 8];
    LobbyInitPlan {
        storm_ids: ids,
        packet: LobbyGameInitData {
            game_init_command: GAME_INIT_COMMAND,
            random_seed: info.seed,
            player_bytes,
        },
    }
}

} // verus!
