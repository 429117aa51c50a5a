use vstd::prelude::*;

use crate::text::is_text;

verus! {

/// The engine's encoding of a match's rules: a primary category and a subtype.
#[derive(Clone, Copy, PartialEq, Eq, Debug)]
pub struct GameType {
    pub primary: u8,
    pub subtype: u8,
}

pub const PRIMARY_MELEE: u8 = 0x2;
pub const PRIMARY_FFA: u8 = 0x3;
pub const PRIMARY_ONE_V_ONE: u8 = 0x4;
/// Primary category of "use map settings" games.
pub const PRIMARY_UMS: u8 = 0xa;
pub const PRIMARY_TEAM_MELEE: u8 = 0xb;
pub const PRIMARY_TEAM_FFA: u8 = 0xc;
pub const PRIMARY_TOP_V_BOTTOM: u8 = 0xf;

/// The subtype of every game type that takes no subtype from the request.
pub const FIXED_SUBTYPE: u8 = 0x1;

/// What a request's game-type name and optional subtype resolve to.
///
/// Team games carry the team count in the request and one less in the engine;
/// top-vs-bottom carries the size of the top team in both. A team count of zero
/// names no team game, so it resolves to nothing.
pub open spec fn game_type_of(name: Seq<char>, sub: Option<u8>) -> Option<GameType> {
    if name == "melee"@ {
        Some(GameType { primary: PRIMARY_MELEE, subtype: FIXED_SUBTYPE })
    } else if name == "ffa"@ {
        Some(GameType { primary: PRIMARY_FFA, subtype: FIXED_SUBTYPE })
    } else if name == "oneVOne"@ {
        Some(GameType { primary: PRIMARY_ONE_V_ONE, subtype: FIXED_SUBTYPE })
    } else if name == "ums"@ {
        Some(GameType { primary: PRIMARY_UMS, subtype: FIXED_SUBTYPE })
    } else if name == "teamMelee"@ || name == "teamFfa"@ {
        let primary = if name == "teamMelee"@ { PRIMARY_TEAM_MELEE } else { PRIMARY_TEAM_FFA };
        match sub {
            Some(n) if n >= 1 => Some(GameType { primary, subtype: (n - 1) as u8 }),
            _ => None,
        }
    } else if name == "topVBottom"@ {
        match sub {
            Some(n) => Some(GameType { primary: PRIMARY_TOP_V_BOTTOM, subtype: n }),
            None => None,
        }
    } else {
        None
    }
}

/// Game-type resolution follows its table for every name and subtype: the four
/// fixed types ignore the subtype, team games take one less than it, top-vs-bottom
/// takes it as it is, and a missing subtype or any other name resolves to nothing.
pub proof fn lemma_game_type_table(name: Seq<char>, sub: Option<u8>)
    ensures
        name == "melee"@ ==> game_type_of(name, sub) == Some(GameType { primary: 0x2, subtype: 0x1 }),
        name == "ffa"@ ==> game_type_of(name, sub) == Some(GameType { primary: 0x3, subtype: 0x1 }),
        name == "oneVOne"@ ==> game_type_of(name, sub) == Some(
            GameType { primary: 0x4, subtype: 0x1 },
        ),
        name == "ums"@ ==> game_type_of(name, sub) == Some(GameType { primary: 0xa, subtype: 0x1 }),
        name == "teamMelee"@ && sub is Some && sub->Some_0 >= 1 ==> game_type_of(name, sub) == Some(
            GameType { primary: 0xb, subtype: (sub->Some_0 - 1) as u8 },
        ),
        name == "teamFfa"@ && sub is Some && sub->Some_0 >= 1 ==> game_type_of(name, sub) == Some(
            GameType { primary: 0xc, subtype: (sub->Some_0 - 1) as u8 },
        ),
        name == "topVBottom"@ && sub is Some ==> game_type_of(name, sub) == Some(
            GameType { primary: 0xf, subtype: sub->Some_0 },
        ),
        (name == "teamMelee"@ || name == "teamFfa"@ || name == "topVBottom"@) && sub is None
            ==> game_type_of(name, sub) is None,
        !(name == "melee"@ || name == "ffa"@ || name == "oneVOne"@ || name == "ums"@ || name
            == "teamMelee"@ || name == "teamFfa"@ || name == "topVBottom"@) ==> game_type_of(
            name,
            sub,
        ) is None,
{
    reveal_strlit("melee");
    reveal_strlit("ffa");
    reveal_strlit("oneVOne");
    reveal_strlit("ums");
    reveal_strlit("teamMelee");
    reveal_strlit("teamFfa");
    reveal_strlit("topVBottom");
    assert("ffa"@.len() != "melee"@.len());
    assert("oneVOne"@.len() != "melee"@.len() && "oneVOne"@.len() != "ffa"@.len());
    assert("ums"@.len() != "melee"@.len() && "ums"@[0] != "ffa"@[0] && "ums"@.len()
        != "oneVOne"@.len());
    assert("teamMelee"@.len() != "melee"@.len() && "teamMelee"@.len() != "ffa"@.len()
        && "teamMelee"@.len() != "oneVOne"@.len() && "teamMelee"@.len() != "ums"@.len());
    assert("teamFfa"@.len() != "melee"@.len() && "teamFfa"@.len() != "ffa"@.len()
        && "teamFfa"@[0] != "oneVOne"@[0] && "teamFfa"@.len() != "ums"@.len()
        && "teamFfa"@.len() != "teamMelee"@.len());
    assert("topVBottom"@.len() != "melee"@.len() && "topVBottom"@.len() != "ffa"@.len()
        && "topVBottom"@.len() != "oneVOne"@.len() && "topVBottom"@.len() != "ums"@.len()
        && "topVBottom"@.len() != "teamMelee"@.len() && "topVBottom"@.len() != "teamFfa"@.len());
}

/// Resolves a request's game-type name and optional subtype.
pub fn resolve_game_type(name: &String, sub: Option<u8>) -> (r: Option<GameType>)
    ensures
        r == game_type_of(name@, sub),
{
    if is_text(name, "melee") {
        Some(GameType { primary: PRIMARY_MELEE, subtype: FIXED_SUBTYPE })
    } else if is_text(name, "ffa") {
        Some(GameType { primary: PRIMARY_FFA, subtype: FIXED_SUBTYPE })
    } else if is_text(name, "oneVOne") {
        Some(GameType { primary: PRIMARY_ONE_V_ONE, subtype: FIXED_SUBTYPE })
    } else if is_text(name, "ums") {
        Some(GameType { primary: PRIMARY_UMS, subtype: FIXED_SUBTYPE })
    } else if is_text(name, "teamMelee") || is_text(name, "teamFfa") {
        let primary = if is_text(name, "teamMelee") {
            PRIMARY_TEAM_MELEE
        } else {
            PRIMARY_TEAM_FFA
        };
        match sub {
            Some(n) if n >= 1 => Some(GameType { primary, subtype: n - 1 }),
            _ => None,
        }
    } else if is_text(name, "topVBottom") {
        match sub {
            Some(n) => Some(GameType { primary: PRIMARY_TOP_V_BOTTOM, subtype: n }),
            None => None,
        }
    } else {
        None
    }
}

/// The single number the engine takes for a game type: the primary category in
/// the low half, the subtype in the high half.
pub open spec fn game_type_code(t: GameType) -> u32 {
    (t.primary as u32 + t.subtype as u32 * 0x10000) as u32
}

impl GameType {
    /// Whether the map's own settings decide slots and teams.
    pub fn is_ums(&self) -> (r: bool)
        ensures
            r == (self.primary == PRIMARY_UMS),
    {
        self.primary == PRIMARY_UMS
    }

    /// The engine's numeric code for this game type.
    pub fn as_u32(&self) -> (r: u32)
        ensures
            r == game_type_code(*self),
            r as int == self.primary as int + self.subtype as int * 0x10000,
    {
        self.primary as u32 + self.subtype as u32 * 0x10000
    }
}

} // verus!
