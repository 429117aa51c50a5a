use vstd::prelude::*;

use crate::errors::GameInitError;
use crate::game_type::{GameType, game_type_of};
use crate::presence::{
    all_present, entries, find_slot, first_slot_named, has_all_players, reconcile, update_bw_slots,
};
use crate::setup::{GameSetupInfo, LocalUser};
use crate::slots::EnginePlayer;

verus! {

/// The armed wait for all participants of one run.
#[derive(Debug)]
pub struct PlayerWaitState {
    pub run: u64,
    pub info: GameSetupInfo,
}

/// The orchestrator's own state; one message is handled at a time.
#[derive(Debug)]
pub struct GameState {
    pub settings_set: bool,
    pub local_user: Option<LocalUser>,
    pub routes_set: bool,
    /// Session ids whose chat the local observer sees; unused until observers
    /// can set up games.
    pub chat_ally_override: Option<Vec<u8>>,
    /// The run that is set up or played now.
    pub running_game: Option<u64>,
    pub player_wait_state: Option<PlayerWaitState>,
    /// The id that the next run gets.
    pub next_run: u64,
}

/// Control messages to the orchestrator. Settings, routes and session-layer
/// messages go on to collaborators, which keep their payloads.
#[derive(Debug)]
pub enum GameStateMessage {
    SetSettings,
    SetRoutes,
    SetLocalUser(LocalUser),
    SetupGame(GameSetupInfo),
    Snp,
    InLobby,
    PlayerJoined,
}

/// What a run starts with once its preconditions hold.
#[derive(Debug)]
pub struct RunPlan {
    pub run: u64,
    pub local_user: LocalUser,
    pub is_host: bool,
    pub game_type: GameType,
}

/// What the caller does after a control message.
#[derive(Debug)]
pub enum Reaction {
    Nothing,
    /// Configure the engine from the settings.
    ApplySettings,
    /// Hand the routes to the network collaborator.
    ConfigureRoutes,
    /// Hand the session-layer message to the network collaborator.
    ForwardSnp,
    /// Cancel run `cancel`, if any, then run `run`: its pipeline on `Ok`, or
    /// report the error on `Err`.
    StartRun { run: u64, start: Result<RunPlan, GameInitError>, cancel: Option<u64> },
    /// Read the known present names and the player table, and hand them to
    /// `player_update`.
    Reconcile,
}

/// What one reconciliation pass of the armed wait came to.
#[derive(Debug)]
pub struct WaitUpdate {
    /// The run whose wait this is.
    pub run: u64,
    /// The player table to write back, where reconciliation succeeded.
    pub table: Option<Vec<EnginePlayer>>,
    /// The wait's outcome, where it ended; `None` while it stays armed.
    pub done: Option<Result<(), GameInitError>>,
}

/// Whether the local user's first slot in the request is an observer slot.
pub open spec fn observes(info: GameSetupInfo, user: LocalUser) -> bool {
    match first_slot_named(info.slots@, user.name@, 0) {
        Some(j) => info.slots@[j].spec_is_observer(),
        None => false,
    }
}

impl GameState {
    pub fn new() -> (r: GameState)
        ensures
            !r.settings_set,
            r.local_user is None,
            !r.routes_set,
            r.chat_ally_override is None,
            r.running_game is None,
            r.player_wait_state is None,
            r.next_run == 0,
    {
        GameState {
            settings_set: false,
            local_user: None,
            routes_set: false,
            chat_ally_override: None,
            running_game: None,
            player_wait_state: None,
            next_run: 0,
        }
    }

    pub fn set_settings(&mut self)
        ensures
            final(self).settings_set,
            final(self).local_user == old(self).local_user,
            final(self).routes_set == old(self).routes_set,
            final(self).running_game == old(self).running_game,
            final(self).player_wait_state == old(self).player_wait_state,
            final(self).chat_ally_override == old(self).chat_ally_override,
            final(self).next_run == old(self).next_run,
    {
        self.settings_set = true;
    }

    pub fn set_local_user(&mut self, user: LocalUser)
        ensures
            final(self).local_user == Some(user),
            final(self).settings_set == old(self).settings_set,
            final(self).routes_set == old(self).routes_set,
            final(self).running_game == old(self).running_game,
            final(self).player_wait_state == old(self).player_wait_state,
            final(self).chat_ally_override == old(self).chat_ally_override,
            final(self).next_run == old(self).next_run,
    {
        self.local_user = Some(user);
    }

    pub fn set_routes(&mut self)
        ensures
            final(self).routes_set,
            final(self).settings_set == old(self).settings_set,
            final(self).local_user == old(self).local_user,
            final(self).running_game == old(self).running_game,
            final(self).player_wait_state == old(self).player_wait_state,
            final(self).chat_ally_override == old(self).chat_ally_override,
            final(self).next_run == old(self).next_run,
    {
        self.routes_set = true;
    }

    /// Arms the wait for all participants of `run`; only one can be armed.
    pub fn wait_for_players(&mut self, info: GameSetupInfo, run: u64) -> (r: Result<
        (),
        GameInitError,
    >)
        ensures
            old(self).player_wait_state is Some ==> r == Err::<(), GameInitError>(
                GameInitError::GameInitAlreadyInProgress,
            ) && final(self).player_wait_state == old(self).player_wait_state,
            old(self).player_wait_state is None ==> r is Ok && final(self).player_wait_state
                == Some(PlayerWaitState { run, info }),
            final(self).settings_set == old(self).settings_set,
            final(self).local_user == old(self).local_user,
            final(self).routes_set == old(self).routes_set,
            final(self).running_game == old(self).running_game,
            final(self).chat_ally_override == old(self).chat_ally_override,
            final(self).next_run == old(self).next_run,
    {
        if self.player_wait_state.is_some() {
            return Err(GameInitError::GameInitAlreadyInProgress);
        }
        self.player_wait_state = Some(PlayerWaitState { run, info });
        Ok(())
    }

    /// Checks a run's preconditions in order (settings, local user, routes, game
    /// type, the local user's role) and arms its wait for participants. The local
    /// user moves into the run once settings are set.
    pub fn init_game(&mut self, info: GameSetupInfo, run: u64) -> (r: Result<RunPlan, GameInitError>)
        ensures
            r == init_result(*old(self), info, run),
            final(self).player_wait_state == (if r is Ok {
                Some(PlayerWaitState { run, info })
            } else {
                old(self).player_wait_state
            }),
            final(self).local_user == (if old(self).settings_set {
                None
            } else {
                old(self).local_user
            }),
            final(self).chat_ally_override == (if r is Ok {
                None
            } else {
                old(self).chat_ally_override
            }),
            final(self).settings_set == old(self).settings_set,
            final(self).routes_set == old(self).routes_set,
            final(self).running_game == old(self).running_game,
            final(self).next_run == old(self).next_run,
    {
        if !self.settings_set {
            return Err(GameInitError::SettingsNotSet);
        }
        let local_user = match self.local_user.take() {
            Some(u) => u,
            None => return Err(GameInitError::LocalUserNotSet),
        };
        if !self.routes_set {
            return Err(GameInitError::RoutesNotSet);
        }
        let game_type = match info.game_type() {
            Some(t) => t,
            None => return Err(GameInitError::UnknownGameType(info.game_type, info.game_sub_type)),
        };
        let is_observer = match find_slot(&info.slots, &local_user.name) {
            Some(j) => info.slots[j].is_observer(),
            None => false,
        };
        if is_observer {
            return Err(GameInitError::ObserverNotSupported);
        }
        let is_host = local_user.name == info.host.name;
        match self.wait_for_players(info, run) {
            Ok(()) => {
                self.chat_ally_override = None;
                Ok(RunPlan { run, local_user, is_host, game_type })
            },
            Err(e) => Err(e),
        }
    }

    /// Ends run `run`: it is no longer the running one, and its wait, if armed,
    /// is dropped.
    pub fn cancel_run(&mut self, run: u64)
        ensures
            final(self).player_wait_state == (if old(self).player_wait_state is Some && old(
                self,
            ).player_wait_state->Some_0.run == run {
                None
            } else {
                old(self).player_wait_state
            }),
            final(self).running_game == (if old(self).running_game == Some(run) {
                None
            } else {
                old(self).running_game
            }),
            final(self).settings_set == old(self).settings_set,
            final(self).local_user == old(self).local_user,
            final(self).routes_set == old(self).routes_set,
            final(self).chat_ally_override == old(self).chat_ally_override,
            final(self).next_run == old(self).next_run,
    {
        let armed_for_run = match &self.player_wait_state {
            Some(w) => w.run == run,
            None => false,
        };
        if armed_for_run {
            self.player_wait_state = None;
        }
        if self.running_game == Some(run) {
            self.running_game = None;
        }
    }

    /// One reconciliation pass of the armed wait, against the known present
    /// names (index = session id) and the engine's player table. Without an
    /// armed wait nothing happens. A failure or completion ends the wait; else
    /// it stays armed for the next notification.
    pub fn player_update(
        &mut self,
        storm_names: &Vec<Option<String>>,
        table: &Vec<EnginePlayer>,
    ) -> (r: Option<WaitUpdate>)
        requires
            storm_names@.len() <= u32::MAX,
        ensures
            final(self).settings_set == old(self).settings_set,
            final(self).local_user == old(self).local_user,
            final(self).routes_set == old(self).routes_set,
            final(self).running_game == old(self).running_game,
            final(self).chat_ally_override == old(self).chat_ally_override,
            final(self).next_run == old(self).next_run,
            old(self).player_wait_state is None ==> r is None && final(self).player_wait_state
                is None,
            old(self).player_wait_state is Some ==> ({
                let w = old(self).player_wait_state->Some_0;
                let outcome = reconcile(w.info.slots@, storm_names@, entries(table@));
                &&& r is Some
                &&& r->Some_0.run == w.run
                &&& match outcome {
                    Err(e) => r->Some_0.table is None && r->Some_0.done == Some(
                        Err::<(), GameInitError>(e),
                    ) && final(self).player_wait_state is None,
                    Ok(t) => r->Some_0.table is Some && entries(r->Some_0.table->Some_0@) == t && (
                    if all_present(w.info.slots@, storm_names@) {
                        r->Some_0.done == Some(Ok::<(), GameInitError>(()))
                            && final(self).player_wait_state is None
                    } else {
                        r->Some_0.done is None && final(self).player_wait_state == old(
                            self,
                        ).player_wait_state
                    }),
                }
            }),
    {
        let w = match self.player_wait_state.take() {
            Some(w) => w,
            None => return None,
        };
        match update_bw_slots(&w.info.slots, storm_names, table) {
            Err(e) => Some(WaitUpdate { run: w.run, table: None, done: Some(Err(e)) }),
            Ok(t) => {
                if has_all_players(&w.info.slots, storm_names) {
                    Some(WaitUpdate { run: w.run, table: Some(t), done: Some(Ok(())) })
                } else {
                    let run = w.run;
                    self.player_wait_state = Some(w);
                    Some(WaitUpdate { run, table: Some(t), done: None })
                }
            },
        }
    }

    /// Handles one control message.
    pub fn handle_message(&mut self, message: GameStateMessage) -> (r: Reaction)
        ensures
            match message {
                GameStateMessage::SetSettings => r is ApplySettings && final(self).settings_set
                    && unchanged_but_settings(*old(self), *final(self)),
                GameStateMessage::SetRoutes => r is ConfigureRoutes && final(self).routes_set
                    && unchanged_but_routes(*old(self), *final(self)),
                GameStateMessage::SetLocalUser(u) => r is Nothing && final(self).local_user == Some(
                    u,
                ) && unchanged_but_user(*old(self), *final(self)),
                GameStateMessage::Snp => r is ForwardSnp && *final(self) == *old(self),
                GameStateMessage::InLobby | GameStateMessage::PlayerJoined => *final(self) == *old(
                    self,
                ) && (if old(self).player_wait_state is Some {
                    r is Reconcile
                } else {
                    r is Nothing
                }),
                GameStateMessage::SetupGame(info) => {
                    let run = old(self).next_run;
                    let start = init_result(*old(self), info, run);
                    &&& r == (Reaction::StartRun { run, start, cancel: old(self).running_game })
                    &&& final(self).running_game == Some(run)
                    &&& final(self).next_run == next_run_id(run)
                    &&& final(self).settings_set == old(self).settings_set
                    &&& final(self).routes_set == old(self).routes_set
                    &&& final(self).local_user == (if old(self).settings_set {
                        None
                    } else {
                        old(self).local_user
                    })
                    &&& final(self).player_wait_state == (if start is Ok {
                        Some(PlayerWaitState { run, info })
                    } else if old(self).player_wait_state is Some && old(self).running_game == Some(
                        old(self).player_wait_state->Some_0.run,
                    ) {
                        None
                    } else {
                        old(self).player_wait_state
                    })
                },
            },
    {
        match message {
            GameStateMessage::SetSettings => {
                self.set_settings();
                Reaction::ApplySettings
            },
            GameStateMessage::SetRoutes => {
                self.set_routes();
                Reaction::ConfigureRoutes
            },
            GameStateMessage::SetLocalUser(user) => {
                self.set_local_user(user);
                Reaction::Nothing
            },
            GameStateMessage::Snp => Reaction::ForwardSnp,
            GameStateMessage::InLobby | GameStateMessage::PlayerJoined => {
                if self.player_wait_state.is_some() {
                    Reaction::Reconcile
                } else {
                    Reaction::Nothing
                }
            },
            GameStateMessage::SetupGame(info) => {
                let run = self.next_run;
                let cancel = self.running_game;
                self.next_run = if run == u64::MAX {
                    0
                } else {
                    run + 1
                };
                let start = self.init_game(info, run);
                if start.is_err() {
                    match cancel {
                        Some(old_run) => self.cancel_run(old_run),
                        None => {},
                    }
                }
                self.running_game = Some(run);
                Reaction::StartRun { run, start, cancel }
            },
        }
    }
}

/// The id of the run after run `run`.
pub open spec fn next_run_id(run: u64) -> u64 {
    if run == u64::MAX {
        0
    } else {
        (run + 1) as u64
    }
}

/// What a run's start comes to: the first precondition that fails, in order,
/// or the plan of the run.
pub open spec fn init_result(s: GameState, info: GameSetupInfo, run: u64) -> Result<
    RunPlan,
    GameInitError,
> {
    if !s.settings_set {
        Err(GameInitError::SettingsNotSet)
    } else if s.local_user is None {
        Err(GameInitError::LocalUserNotSet)
    } else if !s.routes_set {
        Err(GameInitError::RoutesNotSet)
    } else if game_type_of(info.game_type@, info.game_sub_type) is None {
        Err(GameInitError::UnknownGameType(info.game_type, info.game_sub_type))
    } else if observes(info, s.local_user->Some_0) {
        Err(GameInitError::ObserverNotSupported)
    } else if s.player_wait_state is Some {
        Err(GameInitError::GameInitAlreadyInProgress)
    } else {
        Ok(
            RunPlan {
                run,
                local_user: s.local_user->Some_0,
                is_host: s.local_user->Some_0.name@ == info.host.name@,
                game_type: game_type_of(info.game_type@, info.game_sub_type)->Some_0,
            },
        )
    }
}

/// At most one wait for participants is armed: while one is, no setup request
/// starts a run, and one whose other preconditions hold fails with "already in
/// progress", however many arrive.
pub proof fn lemma_one_wait_at_a_time(s: GameState, info: GameSetupInfo, run: u64)
    requires
        s.player_wait_state is Some,
    ensures
        init_result(s, info, run) is Err,
        s.settings_set && s.local_user is Some && s.routes_set && game_type_of(
            info.game_type@,
            info.game_sub_type,
        ) is Some && !observes(info, s.local_user->Some_0) ==> init_result(s, info, run) == Err::<
            RunPlan,
            GameInitError,
        >(GameInitError::GameInitAlreadyInProgress),
{
}

pub open spec fn unchanged_but_settings(a: GameState, b: GameState) -> bool {
    b == GameState { settings_set: b.settings_set, ..a }
}

pub open spec fn unchanged_but_routes(a: GameState, b: GameState) -> bool {
    b == GameState { routes_set: b.routes_set, ..a }
}

pub open spec fn unchanged_but_user(a: GameState, b: GameState) -> bool {
    b == GameState { local_user: b.local_user, ..a }
}

} // verus!
