use vstd::prelude::*;

use crate::game_type::{GameType, game_type_of, resolve_game_type};
use crate::text::is_text;

verus! {

/// Engine player type: an empty slot.
pub const PLAYER_TYPE_NONE: u8 = 0x0;
/// Engine player type: a human participant.
pub const PLAYER_TYPE_HUMAN: u8 = 0x2;
/// Engine player type: a computer chosen in the lobby.
pub const PLAYER_TYPE_LOBBY_COMPUTER: u8 = 0x5;
/// Engine player type: an open slot.
pub const PLAYER_TYPE_OPEN: u8 = 0x6;

pub const RACE_ZERG: u8 = 0x0;
pub const RACE_TERRAN: u8 = 0x1;
pub const RACE_PROTOSS: u8 = 0x2;
pub const RACE_RANDOM: u8 = 0x6;

/// The local participant's identity.
#[derive(Clone, PartialEq, Eq, Debug)]
pub struct LocalUser {
    pub name: String,
}

/// What the request says of the map. Its shape differs between playing a game
/// and watching a replay, so every field is optional.
#[derive(Clone, PartialEq, Eq, Debug)]
pub struct MapInfo {
    pub is_replay: Option<bool>,
    pub hash: Option<String>,
    pub height: Option<u32>,
    pub width: Option<u32>,
    pub ums_slots: Option<u8>,
    pub slots: Option<u8>,
    pub tileset: Option<String>,
    pub name: Option<String>,
    pub path: Option<String>,
}

/// One requested participant.
#[derive(Clone, PartialEq, Eq, Debug)]
pub struct PlayerInfo {
    pub id: String,
    pub name: String,
    pub race: Option<String>,
    pub player_id: Option<u8>,
    pub team_id: Option<u8>,
    /// The request's own vocabulary: "human", "observer", "computer", ...
    pub player_type: String,
    /// The slot's type in the engine's own structures.
    pub player_type_id: u8,
}

/// A request to set up one match.
#[derive(Clone, PartialEq, Eq, Debug)]
pub struct GameSetupInfo {
    pub name: String,
    pub map: MapInfo,
    pub map_path: String,
    pub game_type: String,
    pub game_sub_type: Option<u8>,
    pub slots: Vec<PlayerInfo>,
    pub host: PlayerInfo,
    pub seed: u32,
}

pub open spec fn is_human_type(t: Seq<char>) -> bool {
    t == "human"@
}

pub open spec fn is_observer_type(t: Seq<char>) -> bool {
    t == "observer"@
}

/// The engine's player type for a request's player-type name.
pub open spec fn bw_player_type_of(t: Seq<char>) -> u8 {
    if t == "human"@ || t == "observer"@ {
        PLAYER_TYPE_HUMAN
    } else if t == "computer"@ {
        PLAYER_TYPE_LOBBY_COMPUTER
    } else if t == "controlledOpen"@ || t == "controlledClosed"@ || t == "open"@ || t
        == "closed"@ {
        PLAYER_TYPE_OPEN
    } else {
        PLAYER_TYPE_NONE
    }
}

/// The engine's race code for a request's race letter; anything else is random.
pub open spec fn bw_race_of(race: Option<Seq<char>>) -> u8 {
    match race {
        Some(r) => if r == "z"@ {
            RACE_ZERG
        } else if r == "t"@ {
            RACE_TERRAN
        } else if r == "p"@ {
            RACE_PROTOSS
        } else {
            RACE_RANDOM
        },
        None => RACE_RANDOM,
    }
}

pub open spec fn race_view(race: Option<String>) -> Option<Seq<char>> {
    match race {
        Some(r) => Some(r@),
        None => None,
    }
}

impl PlayerInfo {
    /// A participant who plays, and does not only watch.
    pub open spec fn spec_is_human(&self) -> bool {
        is_human_type(self.player_type@)
    }

    pub open spec fn spec_is_observer(&self) -> bool {
        is_observer_type(self.player_type@)
    }

    /// Whether the participant must be present before the match starts.
    pub open spec fn spec_is_awaited(&self) -> bool {
        self.spec_is_human() || self.spec_is_observer()
    }

    pub fn is_human(&self) -> (r: bool)
        ensures
            r == self.spec_is_human(),
    {
        is_text(&self.player_type, "human")
    }

    pub fn is_observer(&self) -> (r: bool)
        ensures
            r == self.spec_is_observer(),
    {
        is_text(&self.player_type, "observer")
    }

    pub fn bw_player_type(&self) -> (r: u8)
        ensures
            r == bw_player_type_of(self.player_type@),
    {
        let t = &self.player_type;
        if is_text(t, "human") || is_text(t, "observer") {
            PLAYER_TYPE_HUMAN
        } else if is_text(t, "computer") {
            PLAYER_TYPE_LOBBY_COMPUTER
        } else if is_text(t, "controlledOpen") || is_text(t, "controlledClosed") || is_text(
            t,
            "open",
        ) || is_text(t, "closed") {
            PLAYER_TYPE_OPEN
        } else {
            PLAYER_TYPE_NONE
        }
    }

    pub fn bw_race(&self) -> (r: u8)
        ensures
            r == bw_race_of(race_view(self.race)),
    {
        match &self.race {
            Some(race) => {
                if is_text(race, "z") {
                    RACE_ZERG
                } else if is_text(race, "t") {
                    RACE_TERRAN
                } else if is_text(race, "p") {
                    RACE_PROTOSS
                } else {
                    RACE_RANDOM
                }
            },
            None => RACE_RANDOM,
        }
    }
}

impl GameSetupInfo {
    /// The engine's game type for this request, if its name and subtype resolve.
    pub fn game_type(&self) -> (r: Option<GameType>)
        ensures
            r == game_type_of(self.game_type@, self.game_sub_type),
    {
        resolve_game_type(&self.game_type, self.game_sub_type)
    }
}

} // verus!
