use game_setup::errors::{BwError, GameInitError};
use game_setup::finalize::{do_lobby_game_init, GAME_INIT_COMMAND};
use game_setup::pipeline::{Run, RunAction, RunEvent, Stage};
use game_setup::setup::{GameSetupInfo, LocalUser, MapInfo, PlayerInfo};
use game_setup::slots::{setup_slots, EnginePlayer};
use game_setup::state::{GameState, GameStateMessage, Reaction, RunPlan};

fn player(name: &str, kind: &str) -> PlayerInfo {
    PlayerInfo {
        id: format!("id-{}", name),
        name: name.to_string(),
        race: Some("p".to_string()),
        player_id: None,
        team_id: None,
        player_type: kind.to_string(),
        player_type_id: 6,
    }
}

fn empty_map() -> MapInfo {
    MapInfo {
        is_replay: None,
        hash: None,
        height: None,
        width: None,
        ums_slots: None,
        slots: None,
        tileset: None,
        name: None,
        path: None,
    }
}

fn setup_info(game_type: &str, sub: Option<u8>, slots: Vec<PlayerInfo>, host: PlayerInfo) -> GameSetupInfo {
    GameSetupInfo {
        name: "lobby".to_string(),
        map: empty_map(),
        map_path: "maps/lost_temple.scm".to_string(),
        game_type: game_type.to_string(),
        game_sub_type: sub,
        slots,
        host,
        seed: 0x1234_5678,
    }
}

fn ready_state(user: &str) -> GameState {
    let mut state = GameState::new();
    assert!(matches!(state.handle_message(GameStateMessage::SetSettings), Reaction::ApplySettings));
    let r = state.handle_message(GameStateMessage::SetLocalUser(LocalUser { name: user.to_string() }));
    assert!(matches!(r, Reaction::Nothing));
    assert!(matches!(state.handle_message(GameStateMessage::SetRoutes), Reaction::ConfigureRoutes));
    state
}

fn start(state: &mut GameState, info: GameSetupInfo) -> (u64, Result<RunPlan, GameInitError>, Option<u64>) {
    match state.handle_message(GameStateMessage::SetupGame(info)) {
        Reaction::StartRun { run, start, cancel } => (run, start, cancel),
        other => panic!("unexpected reaction {:?}", other),
    }
}

fn names(list: &[&str]) -> Vec<Option<String>> {
    list.iter().map(|n| Some(n.to_string())).collect()
}

fn two_humans() -> GameSetupInfo {
    let host = player("host", "human");
    setup_info("melee", None, vec![host.clone(), player("guest", "human")], host)
}

/// Drives a host run through its preparation until it is in the lobby.
fn host_run_in_lobby(actions: &mut Vec<RunAction>) -> Run {
    let (mut run, first) = Run::start(true);
    actions.extend(first);
    actions.extend(run.step(RunEvent::InitializeAcked));
    actions.extend(run.step(RunEvent::MapSelected(Ok(0))));
    actions.extend(run.step(RunEvent::NetworkReady(Ok(()))));
    actions.extend(run.step(RunEvent::WndProcStarted));
    run
}

#[test]
fn scenario_host_with_two_humans_starts_then_ends() {
    let mut state = ready_state("host");
    let info = two_humans();
    let (run_id, plan, cancel) = start(&mut state, info.clone());
    assert_eq!(cancel, None);
    let plan = plan.expect("preconditions hold");
    assert!(plan.is_host);
    assert_eq!(plan.run, run_id);
    assert_eq!((plan.game_type.primary, plan.game_type.subtype), (0x2, 0x1));

    let mut actions = Vec::new();
    let mut run = host_run_in_lobby(&mut actions);
    assert_eq!(run.stage, Stage::AwaitingAllPlayers);
    assert_eq!(
        actions,
        vec![
            RunAction::WakeEngine,
            RunAction::SendInitialize,
            RunAction::SendRunWndProc,
            RunAction::WaitNetworkReady,
            RunAction::InjectLocalUser,
            RunAction::CreateLobby,
            RunAction::InitGameNetwork,
            RunAction::SetupSlots,
            RunAction::NotifyInLobby,
        ]
    );

    let game_type = info.game_type().unwrap();
    let table = setup_slots(&info.slots, game_type);
    assert!(matches!(state.handle_message(GameStateMessage::InLobby), Reaction::Reconcile));
    let update = state.player_update(&names(&["host"]), &table).expect("wait is armed");
    assert_eq!(update.done, None);
    let table = update.table.expect("reconciled");
    assert_eq!(table[0].storm_id, 0);
    assert!(state.player_wait_state.is_some());

    assert!(matches!(state.handle_message(GameStateMessage::PlayerJoined), Reaction::Reconcile));
    let presence = names(&["host", "guest"]);
    let update = state.player_update(&presence, &table).expect("wait is armed");
    assert_eq!(update.done, Some(Ok(())));
    assert_eq!(update.run, run_id);
    let table = update.table.unwrap();
    assert_eq!((table[0].storm_id, table[1].storm_id), (0, 1));
    assert!(state.player_wait_state.is_none());

    actions.extend(run.step(RunEvent::PlayersJoined(Ok(()))));
    let plan = do_lobby_game_init(&info, &presence);
    assert_eq!(plan.storm_ids, vec![0, 1]);
    assert_eq!(plan.packet.game_init_command, GAME_INIT_COMMAND);
    assert_eq!(plan.packet.random_seed, 0x1234_5678);
    assert_eq!(plan.packet.player_bytes, [8; 8]);
    actions.extend(run.step(RunEvent::StartSent));
    actions.extend(run.step(RunEvent::GameFinished(0)));
    actions.extend(run.step(RunEvent::EndSent));
    assert_eq!(run.stage, Stage::Done);

    let starts: Vec<usize> = actions.iter().enumerate()
        .filter(|(_, a)| **a == RunAction::SendGameStart).map(|(i, _)| i).collect();
    let ends: Vec<usize> = actions.iter().enumerate()
        .filter(|(_, a)| **a == RunAction::SendGameEnd(0)).map(|(i, _)| i).collect();
    assert_eq!(starts.len(), 1);
    assert_eq!(ends.len(), 1);
    assert!(starts[0] < ends[0]);
    assert!(!actions.iter().any(|a| matches!(a, RunAction::ReportFailure(_))));
}

#[test]
fn scenario_team_game_without_subtype_fails_before_engine() {
    let mut state = ready_state("host");
    let host = player("host", "human");
    let info = setup_info("teamMelee", None, vec![host.clone()], host);
    let (_, plan, _) = start(&mut state, info);
    assert_eq!(
        plan.err(),
        Some(GameInitError::UnknownGameType("teamMelee".to_string(), None))
    );
    assert!(state.player_wait_state.is_none());
}

#[test]
fn scenario_late_notification_is_ignored() {
    let mut state = ready_state("host");
    let info = two_humans();
    let (_, plan, _) = start(&mut state, info.clone());
    assert!(plan.is_ok());
    let table = setup_slots(&info.slots, info.game_type().unwrap());
    let update = state.player_update(&names(&["host", "guest"]), &table).unwrap();
    assert_eq!(update.done, Some(Ok(())));

    assert!(matches!(state.handle_message(GameStateMessage::PlayerJoined), Reaction::Nothing));
    assert!(state.player_update(&names(&["host", "guest"]), &table).is_none());
    assert!(state.player_wait_state.is_none());
}

#[test]
fn scenario_native_rejection_already_exists() {
    let (mut run, _) = Run::start(true);
    let acked = run.step(RunEvent::InitializeAcked);
    assert_eq!(acked, vec![RunAction::InjectLocalUser, RunAction::CreateLobby]);
    let failed = run.step(RunEvent::MapSelected(Ok(0x8000_0004)));
    assert_eq!(
        failed,
        vec![RunAction::ReportFailure(GameInitError::Bw(BwError::AlreadyExists))]
    );
    assert_eq!(run.stage, Stage::Failed);
    assert!(run.step(RunEvent::NetworkReady(Ok(()))).is_empty());
    assert_eq!(run.stage, Stage::Failed);
}

#[test]
fn preconditions_are_checked_in_order() {
    let mut state = GameState::new();
    let (_, r, _) = start(&mut state, two_humans());
    assert_eq!(r.err(), Some(GameInitError::SettingsNotSet));
    state.handle_message(GameStateMessage::SetSettings);
    let (_, r, _) = start(&mut state, two_humans());
    assert_eq!(r.err(), Some(GameInitError::LocalUserNotSet));
    state.handle_message(GameStateMessage::SetLocalUser(LocalUser { name: "host".to_string() }));
    let (_, r, _) = start(&mut state, two_humans());
    assert_eq!(r.err(), Some(GameInitError::RoutesNotSet));
}

#[test]
fn observer_local_user_is_not_supported() {
    let mut state = ready_state("watcher");
    let host = player("host", "human");
    let info = setup_info("melee", None, vec![host.clone(), player("watcher", "observer")], host);
    let (_, r, _) = start(&mut state, info);
    assert_eq!(r.err(), Some(GameInitError::ObserverNotSupported));
}

#[test]
fn second_wait_is_refused_while_one_is_armed() {
    let mut state = ready_state("host");
    let (first, r, _) = start(&mut state, two_humans());
    assert!(r.is_ok());
    state.handle_message(GameStateMessage::SetLocalUser(LocalUser { name: "host".to_string() }));
    let (second, r, cancel) = start(&mut state, two_humans());
    assert_eq!(r.err(), Some(GameInitError::GameInitAlreadyInProgress));
    assert_eq!(cancel, Some(first));
    assert_ne!(first, second);
    // The superseded run's wait goes with it.
    assert!(state.player_wait_state.is_none());
    assert_eq!(
        state.wait_for_players(two_humans(), 7),
        Ok(())
    );
    assert_eq!(
        state.wait_for_players(two_humans(), 8),
        Err(GameInitError::GameInitAlreadyInProgress)
    );
    assert_eq!(state.player_wait_state.as_ref().unwrap().run, 7);
}

#[test]
fn unexpected_player_fails_reconciliation() {
    let mut state = ready_state("host");
    let info = two_humans();
    start(&mut state, info.clone()).1.unwrap();
    let table = setup_slots(&info.slots, info.game_type().unwrap());
    let update = state.player_update(&names(&["host", "stranger"]), &table).unwrap();
    assert_eq!(update.done, Some(Err(GameInitError::UnexpectedPlayer("stranger".to_string()))));
    assert!(update.table.is_none());
    assert!(state.player_wait_state.is_none());
}

#[test]
fn moved_session_id_fails_reconciliation() {
    let mut state = ready_state("host");
    let info = two_humans();
    start(&mut state, info.clone()).1.unwrap();
    let table = setup_slots(&info.slots, info.game_type().unwrap());
    let update = state.player_update(&vec![None, Some("guest".to_string())], &table).unwrap();
    assert_eq!(update.done, None);
    let table = update.table.unwrap();
    assert_eq!(table[1].storm_id, 1);
    let update = state.player_update(&vec![None, None, Some("guest".to_string())], &table).unwrap();
    assert_eq!(update.done, Some(Err(GameInitError::StormIdChanged("guest".to_string()))));
}

#[test]
fn non_host_joins_after_three_way_join() {
    let (mut run, _) = Run::start(false);
    assert!(run.step(RunEvent::WndProcStarted).is_empty());
    assert!(run.step(RunEvent::NetworkReady(Ok(()))).is_empty());
    assert_eq!(
        run.step(RunEvent::InitializeAcked),
        vec![RunAction::InjectLocalUser, RunAction::JoinLobby]
    );
    assert_eq!(run.stage, Stage::Joining);
    assert_eq!(
        run.step(RunEvent::Joined(true)),
        vec![RunAction::InitGameNetwork, RunAction::SetupSlots, RunAction::NotifyInLobby]
    );
    assert_eq!(run.stage, Stage::AwaitingAllPlayers);
}

#[test]
fn failed_join_is_reported() {
    let (mut run, _) = Run::start(false);
    run.step(RunEvent::InitializeAcked);
    run.step(RunEvent::NetworkReady(Ok(())));
    run.step(RunEvent::WndProcStarted);
    assert_eq!(
        run.step(RunEvent::Joined(false)),
        vec![RunAction::ReportFailure(GameInitError::CouldNotJoin)]
    );
}

#[test]
fn network_and_channel_failures_end_the_run() {
    let (mut run, _) = Run::start(true);
    assert_eq!(
        run.step(RunEvent::NetworkReady(Err("no route".to_string()))),
        vec![RunAction::ReportFailure(GameInitError::NetworkInit("no route".to_string()))]
    );
    let (mut run, _) = Run::start(true);
    run.step(RunEvent::InitializeAcked);
    assert_eq!(run.step(RunEvent::Closed), vec![RunAction::ReportFailure(GameInitError::Closed)]);
    let (mut run, _) = Run::start(true);
    run.step(RunEvent::InitializeAcked);
    assert_eq!(
        run.step(RunEvent::MapSelected(Err(GameInitError::MapNotFound))),
        vec![RunAction::ReportFailure(GameInitError::MapNotFound)]
    );
}

#[test]
fn host_waits_for_lobby_before_the_join() {
    let (mut run, _) = Run::start(true);
    assert!(run.step(RunEvent::NetworkReady(Ok(()))).is_empty());
    assert!(run.step(RunEvent::WndProcStarted).is_empty());
    run.step(RunEvent::InitializeAcked);
    assert_eq!(run.stage, Stage::Preparing);
    assert_eq!(
        run.step(RunEvent::MapSelected(Ok(0))),
        vec![RunAction::InitGameNetwork, RunAction::SetupSlots, RunAction::NotifyInLobby]
    );
}

#[test]
fn players_joined_failure_is_reported() {
    let mut actions = Vec::new();
    let mut run = host_run_in_lobby(&mut actions);
    let e = GameInitError::UnexpectedPlayer("x".to_string());
    assert_eq!(run.step(RunEvent::PlayersJoined(Err(e.clone()))), vec![RunAction::ReportFailure(e)]);
}

#[test]
fn observers_are_awaited_but_take_no_entry() {
    let host = player("host", "human");
    let info = setup_info(
        "melee",
        None,
        vec![host.clone(), player("watcher", "observer"), player("guest", "human")],
        host,
    );
    let table: Vec<EnginePlayer> = setup_slots(&info.slots, info.game_type().unwrap());
    let mut state = ready_state("host");
    start(&mut state, info.clone()).1.unwrap();
    let update = state.player_update(&names(&["host", "guest"]), &table).unwrap();
    assert_eq!(update.done, None);
    let presence = names(&["host", "guest", "watcher"]);
    let update = state.player_update(&presence, &update.table.unwrap()).unwrap();
    assert_eq!(update.done, Some(Ok(())));
    let t = update.table.unwrap();
    assert_eq!((t[0].storm_id, t[2].storm_id), (0, 1));
    assert!(t.iter().all(|e| !e.name.starts_with(b"watcher")));
    assert_eq!(do_lobby_game_init(&info, &presence).storm_ids, vec![0, 2, 1]);
}
