use game_setup::errors::{bw_error_from_code, map_selection_result, BwError, GameInitError};
use game_setup::game_type::{resolve_game_type, GameType};
use game_setup::setup::{
    PlayerInfo, PLAYER_TYPE_HUMAN, PLAYER_TYPE_LOBBY_COMPUTER, PLAYER_TYPE_NONE, PLAYER_TYPE_OPEN,
    RACE_PROTOSS, RACE_RANDOM, RACE_TERRAN, RACE_ZERG,
};
use game_setup::slots::{make_name_field, setup_slots, STORM_ID_HUMAN_PENDING, STORM_ID_NONE};

fn resolve(name: &str, sub: Option<u8>) -> Option<(u8, u8)> {
    resolve_game_type(&name.to_string(), sub).map(|t| (t.primary, t.subtype))
}

fn slot(name: &str, kind: &str, race: Option<&str>, player_id: Option<u8>, team: Option<u8>, type_id: u8) -> PlayerInfo {
    PlayerInfo {
        id: name.to_string(),
        name: name.to_string(),
        race: race.map(|r| r.to_string()),
        player_id,
        team_id: team,
        player_type: kind.to_string(),
        player_type_id: type_id,
    }
}

#[test]
fn game_type_table() {
    assert_eq!(resolve("melee", None), Some((0x2, 0x1)));
    assert_eq!(resolve("ffa", Some(4)), Some((0x3, 0x1)));
    assert_eq!(resolve("oneVOne", None), Some((0x4, 0x1)));
    assert_eq!(resolve("ums", None), Some((0xa, 0x1)));
    assert_eq!(resolve("teamMelee", Some(2)), Some((0xb, 0x1)));
    assert_eq!(resolve("teamFfa", Some(4)), Some((0xc, 0x3)));
    assert_eq!(resolve("topVBottom", Some(3)), Some((0xf, 0x3)));
}

#[test]
fn game_type_without_value() {
    assert_eq!(resolve("teamMelee", None), None);
    assert_eq!(resolve("teamFfa", None), None);
    assert_eq!(resolve("topVBottom", None), None);
    assert_eq!(resolve("teamMelee", Some(0)), None);
    assert_eq!(resolve("Melee", None), None);
    assert_eq!(resolve("", Some(1)), None);
    assert_eq!(resolve("capture", Some(2)), None);
}

#[test]
fn game_type_code_and_ums() {
    let t = GameType { primary: 0xb, subtype: 0x2 };
    assert_eq!(t.as_u32(), 0x0002_000b);
    assert!(!t.is_ums());
    assert!(GameType { primary: 0xa, subtype: 1 }.is_ums());
}

#[test]
fn native_codes_map_to_errors() {
    let expected = [
        BwError::Invalid,
        BwError::WrongGameType,
        BwError::LadderBadAuth,
        BwError::AlreadyExists,
        BwError::TooManyNames,
        BwError::BadParameters,
        BwError::InvalidPlayerCount,
        BwError::UnsupportedGameType,
        BwError::MissingSaveGamePassword,
        BwError::MissingReplayPassword,
        BwError::IsDirectory,
        BwError::NoHumanSlots,
        BwError::NoComputerSlots,
        BwError::InvalidLeagueMap,
        BwError::GameTypeUnavailable,
        BwError::NotEnoughSlots,
        BwError::LeagueMissingBroodwar,
        BwError::LeagueBadAuth,
    ];
    for (i, e) in expected.iter().enumerate() {
        assert_eq!(bw_error_from_code(0x8000_0001 + i as u32), *e);
    }
    assert_eq!(bw_error_from_code(0x8000_0000), BwError::Unknown);
    assert_eq!(bw_error_from_code(0x8000_0013), BwError::Unknown);
    assert_eq!(bw_error_from_code(1), BwError::Unknown);
    assert_eq!(map_selection_result(0), Ok(()));
    assert_eq!(map_selection_result(0x8000_000b), Err(GameInitError::Bw(BwError::IsDirectory)));
}

#[test]
fn slot_classification() {
    let types = [
        ("human", PLAYER_TYPE_HUMAN),
        ("observer", PLAYER_TYPE_HUMAN),
        ("computer", PLAYER_TYPE_LOBBY_COMPUTER),
        ("controlledOpen", PLAYER_TYPE_OPEN),
        ("controlledClosed", PLAYER_TYPE_OPEN),
        ("open", PLAYER_TYPE_OPEN),
        ("closed", PLAYER_TYPE_OPEN),
        ("rescue", PLAYER_TYPE_NONE),
    ];
    for (kind, code) in types.iter() {
        assert_eq!(slot("a", kind, None, None, None, 0).bw_player_type(), *code);
    }
    assert!(slot("a", "human", None, None, None, 0).is_human());
    assert!(!slot("a", "observer", None, None, None, 0).is_human());
    assert!(slot("a", "observer", None, None, None, 0).is_observer());
    let races = [(Some("z"), RACE_ZERG), (Some("t"), RACE_TERRAN), (Some("p"), RACE_PROTOSS), (Some("r"), RACE_RANDOM), (None, RACE_RANDOM)];
    for (race, code) in races.iter() {
        assert_eq!(slot("a", "human", *race, None, None, 0).bw_race(), *code);
    }
}

#[test]
fn long_names_are_cut() {
    let long = "abcdefghijklmnopqrstuvwxyz0123".to_string();
    let field = make_name_field(&long);
    assert_eq!(field.len(), 25);
    assert_eq!(&field[..24], &long.as_bytes()[..24]);
    assert_eq!(field[24], 0);
    let field = make_name_field(&"bob".to_string());
    assert_eq!(&field[..4], b"bob\0");
    assert!(field[3..].iter().all(|b| *b == 0));
}

#[test]
fn slot_table_for_melee() {
    let slots = vec![
        slot("alice", "human", Some("z"), None, Some(1), 6),
        slot("eve", "observer", None, None, None, 6),
        slot("cpu", "computer", Some("t"), None, None, 5),
    ];
    let gt = GameType { primary: 0x2, subtype: 0x1 };
    let table = setup_slots(&slots, gt);
    assert_eq!(table.len(), 8);
    assert_eq!(table[0].player_id, 0);
    assert_eq!(table[0].storm_id, STORM_ID_HUMAN_PENDING);
    assert_eq!(table[0].race, RACE_ZERG);
    assert_eq!(table[0].team, 1);
    assert_eq!(table[0].player_type, PLAYER_TYPE_HUMAN);
    assert_eq!(&table[0].name[..6], b"alice\0");
    // The observer's position stays at its default.
    assert_eq!(table[1].player_type, PLAYER_TYPE_NONE);
    assert!(table[1].name.iter().all(|b| *b == 0));
    assert_eq!(table[2].storm_id, STORM_ID_NONE);
    assert_eq!(table[2].player_type, PLAYER_TYPE_LOBBY_COMPUTER);
    assert_eq!(table[2].race, RACE_TERRAN);
    // Entries past the requested count are open.
    assert_eq!(table[3].player_type, PLAYER_TYPE_NONE);
    assert_eq!(table[4].player_type, PLAYER_TYPE_OPEN);
    assert_eq!(table[7].player_type, PLAYER_TYPE_OPEN);
    assert_eq!(table[7].player_id, 7);
    assert_eq!(setup_slots(&slots, gt), table);
}

#[test]
fn slot_table_for_use_map_settings() {
    let slots = vec![
        slot("alice", "human", None, Some(3), Some(2), 2),
        slot("cpu", "computer", None, Some(5), Some(4), 1),
        slot("map", "computer", None, Some(6), Some(3), 7),
    ];
    let gt = GameType { primary: 0xa, subtype: 0x1 };
    let table = setup_slots(&slots, gt);
    assert_eq!(table[3].player_id, 3);
    assert_eq!(table[3].team, 0);
    assert_eq!(table[3].player_type, PLAYER_TYPE_HUMAN);
    assert_eq!(table[5].team, 0);
    assert_eq!(table[5].player_type, 1);
    assert_eq!(table[6].team, 3);
    assert_eq!(table[6].player_type, 7);
    assert_eq!(table[0].player_type, PLAYER_TYPE_NONE);
}
