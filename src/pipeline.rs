use vstd::prelude::*;

use crate::errors::{GameInitError, bw_error_of, map_selection_result};

verus! {

/// Where a run of setup and play stands.
#[derive(Clone, Copy, PartialEq, Eq, Structural, Debug)]
pub enum Stage {
    /// Waiting for the engine's initialization (with, for the host, the
    /// lobby's creation), the network, and the engine's window loop.
    Preparing,
    /// Not the host: waiting for the engine to report whether joining worked.
    Joining,
    /// In the lobby, waiting for every participant.
    AwaitingAllPlayers,
    /// Waiting for the start event to go out.
    Starting,
    /// The match runs; waiting for the engine to finish it.
    Playing,
    /// Waiting for the end event to go out.
    Ending,
    Done,
    Failed,
}

/// One run's progress.
#[derive(Clone, Copy, PartialEq, Eq, Structural, Debug)]
pub struct Run {
    pub is_host: bool,
    /// The engine acknowledged `Initialize`.
    pub init_acked: bool,
    /// Initialization finished, the lobby created where this side hosts.
    pub pre_network_done: bool,
    pub network_ready: bool,
    /// The engine accepted the request to run its window loop.
    pub wnd_proc_started: bool,
    pub stage: Stage,
}

/// What happened outside since the last step.
#[derive(PartialEq, Eq, Debug)]
pub enum RunEvent {
    /// The engine finished `Initialize`.
    InitializeAcked,
    /// The host looked the map up: its failure, or the code that the engine's
    /// map-selection primitive returned.
    MapSelected(Result<u32, GameInitError>),
    /// The network collaborator is ready, or failed with its own description.
    NetworkReady(Result<(), String>),
    /// The engine accepted `RunWndProc`.
    WndProcStarted,
    /// The engine reported whether joining the host's lobby succeeded.
    Joined(bool),
    /// The armed wait for participants ended.
    PlayersJoined(Result<(), GameInitError>),
    /// The start event went out.
    StartSent,
    /// The engine finished `StartGame`, with the match's result.
    GameFinished(i32),
    /// The end event went out.
    EndSent,
    /// A request or event channel closed under the run.
    Closed,
}

/// What the caller does next, in order.
#[derive(Clone, PartialEq, Eq, Debug)]
pub enum RunAction {
    /// Wake the engine thread, which parks between matches.
    WakeEngine,
    /// Send `Initialize` and wait for its completion.
    SendInitialize,
    /// Send `RunWndProc` and wait until it is accepted.
    SendRunWndProc,
    WaitNetworkReady,
    /// Write the local user's name into the engine and choose the network provider.
    InjectLocalUser,
    /// Look the map up and have the engine select it.
    CreateLobby,
    InitGameNetwork,
    /// Advertise this side and ask the engine to join the host's lobby.
    JoinLobby,
    /// Write the player table that `setup_slots` builds.
    SetupSlots,
    /// Send `InLobby` to the orchestrator.
    NotifyInLobby,
    /// Apply the plan of `do_lobby_game_init`.
    FinalizeLobby,
    /// Release the engine's window loop.
    EndWndProc,
    /// Send the outward start event.
    SendGameStart,
    /// Send `StartGame` and wait for its completion.
    SendStartGame,
    /// Send the outward end event with the match's result.
    SendGameEnd(i32),
    /// Send the outward setup-progress error event.
    ReportFailure(GameInitError),
}

/// Whether a run still moves.
pub open spec fn is_live(s: Stage) -> bool {
    !(s is Done || s is Failed)
}

/// The run's start: the engine is woken, then asked to initialize and to run
/// its window loop, while the network is awaited.
pub open spec fn start_actions() -> Seq<RunAction> {
    seq![
        RunAction::WakeEngine,
        RunAction::SendInitialize,
        RunAction::SendRunWndProc,
        RunAction::WaitNetworkReady,
    ]
}

/// The three-way join before the lobby: once all three have completed, the host
/// is in its lobby, and any other side asks to join.
pub open spec fn join_if_prepared(r: Run) -> (Run, Seq<RunAction>) {
    if r.pre_network_done && r.network_ready && r.wnd_proc_started {
        if r.is_host {
            (
                Run { stage: Stage::AwaitingAllPlayers, ..r },
                seq![RunAction::SetupSlots, RunAction::NotifyInLobby],
            )
        } else {
            (Run { stage: Stage::Joining, ..r }, seq![RunAction::JoinLobby])
        }
    } else {
        (r, Seq::empty())
    }
}

pub open spec fn fail(r: Run, e: GameInitError) -> (Run, Seq<RunAction>) {
    (Run { stage: Stage::Failed, ..r }, seq![RunAction::ReportFailure(e)])
}

/// `first` followed by what `next` comes to.
pub open spec fn then_actions(first: Seq<RunAction>, next: (Run, Seq<RunAction>)) -> (
    Run,
    Seq<RunAction>,
) {
    (next.0, first + next.1)
}

/// One step of a run. A run that ended ignores everything; a closed channel
/// fails any live run; an event that the stage does not wait for is ignored.
pub open spec fn run_step(r: Run, e: RunEvent) -> (Run, Seq<RunAction>) {
    if !is_live(r.stage) {
        (r, Seq::empty())
    } else if e is Closed {
        fail(r, GameInitError::Closed)
    } else {
        match r.stage {
            Stage::Preparing => match e {
                RunEvent::InitializeAcked => if r.init_acked {
                    (r, Seq::empty())
                } else if r.is_host {
                    (
                        Run { init_acked: true, ..r },
                        seq![RunAction::InjectLocalUser, RunAction::CreateLobby],
                    )
                } else {
                    then_actions(
                        seq![RunAction::InjectLocalUser],
                        join_if_prepared(Run { init_acked: true, pre_network_done: true, ..r }),
                    )
                },
                RunEvent::MapSelected(res) => if !(r.is_host && r.init_acked
                    && !r.pre_network_done) {
                    (r, Seq::empty())
                } else {
                    match res {
                        Err(err) => fail(r, err),
                        Ok(code) => if code != 0 {
                            fail(r, GameInitError::Bw(bw_error_of(code)))
                        } else {
                            then_actions(
                                seq![RunAction::InitGameNetwork],
                                join_if_prepared(Run { pre_network_done: true, ..r }),
                            )
                        },
                    }
                },
                RunEvent::NetworkReady(res) => if r.network_ready {
                    (r, Seq::empty())
                } else {
                    match res {
                        Err(msg) => fail(r, GameInitError::NetworkInit(msg)),
                        Ok(()) => join_if_prepared(Run { network_ready: true, ..r }),
                    }
                },
                RunEvent::WndProcStarted => if r.wnd_proc_started {
                    (r, Seq::empty())
                } else {
                    join_if_prepared(Run { wnd_proc_started: true, ..r })
                },
                _ => (r, Seq::empty()),
            },
            Stage::Joining => match e {
                RunEvent::Joined(ok) => if ok {
                    (
                        Run { stage: Stage::AwaitingAllPlayers, ..r },
                        seq![
                            RunAction::InitGameNetwork,
                            RunAction::SetupSlots,
                            RunAction::NotifyInLobby,
                        ],
                    )
                } else {
                    fail(r, GameInitError::CouldNotJoin)
                },
                _ => (r, Seq::empty()),
            },
            Stage::AwaitingAllPlayers => match e {
                RunEvent::PlayersJoined(res) => match res {
                    Err(err) => fail(r, err),
                    Ok(()) => (
                        Run { stage: Stage::Starting, ..r },
                        seq![
                            RunAction::FinalizeLobby,
                            RunAction::EndWndProc,
                            RunAction::SendGameStart,
                        ],
                    ),
                },
                _ => (r, Seq::empty()),
            },
            Stage::Starting => match e {
                RunEvent::StartSent => (
                    Run { stage: Stage::Playing, ..r },
                    seq![RunAction::SendStartGame],
                ),
                _ => (r, Seq::empty()),
            },
            Stage::Playing => match e {
                RunEvent::GameFinished(result) => (
                    Run { stage: Stage::Ending, ..r },
                    seq![RunAction::SendGameEnd(result)],
                ),
                _ => (r, Seq::empty()),
            },
            Stage::Ending => match e {
                RunEvent::EndSent => (Run { stage: Stage::Done, ..r }, Seq::empty()),
                _ => (r, Seq::empty()),
            },
            _ => (r, Seq::empty()),
        }
    }
}

impl Run {
    /// Starts a run whose preconditions held.
    pub fn start(is_host: bool) -> (r: (Run, Vec<RunAction>))
        ensures
            r.0 == (Run {
                is_host,
                init_acked: false,
                pre_network_done: false,
                network_ready: false,
                wnd_proc_started: false,
                stage: Stage::Preparing,
            }),
            r.1@ == start_actions(),
    {
        let run = Run {
            is_host,
            init_acked: false,
            pre_network_done: false,
            network_ready: false,
            wnd_proc_started: false,
            stage: Stage::Preparing,
        };
        let actions: Vec<RunAction> = vec![
            RunAction::WakeEngine,
            RunAction::SendInitialize,
            RunAction::SendRunWndProc,
            RunAction::WaitNetworkReady,
        ];
        assert(actions@ =~= start_actions());
        (run, actions)
    }

    /// Moves on past the three-way join where it is complete, adding what that takes.
    fn join_if_prepared(&mut self, actions: &mut Vec<RunAction>)
        ensures
            (*final(self), final(actions)@) == then_actions(
                old(actions)@,
                join_if_prepared(*old(self)),
            ),
    {
        if self.pre_network_done && self.network_ready && self.wnd_proc_started {
            if self.is_host {
                self.stage = Stage::AwaitingAllPlayers;
                actions.push(RunAction::SetupSlots);
                actions.push(RunAction::NotifyInLobby);
            } else {
                self.stage = Stage::Joining;
                actions.push(RunAction::JoinLobby);
            }
        }
        proof {
            let j = join_if_prepared(*old(self));
            assert(final(actions)@ =~= old(actions)@ + j.1);
        }
    }

    fn fail(&mut self, e: GameInitError) -> (r: Vec<RunAction>)
        ensures
            (*final(self), r@) == fail(*old(self), e),
    {
        self.stage = Stage::Failed;
        let r: Vec<RunAction> = vec![RunAction::ReportFailure(e)];
        assert(r@ =~= seq![RunAction::ReportFailure(e)]);
        r
    }

    /// Takes one event and says what to do next.
    pub fn step(&mut self, event: RunEvent) -> (r: Vec<RunAction>)
        ensures
            (*final(self), r@) == run_step(*old(self), event),
    {
        let mut actions: Vec<RunAction> = Vec::new();
        assert(actions@ =~= Seq::<RunAction>::empty());
        if matches!(self.stage, Stage::Done | Stage::Failed) {
            return actions;
        }
        if matches!(event, RunEvent::Closed) {
            return self.fail(GameInitError::Closed);
        }
        match self.stage {
            Stage::Preparing => match event {
                RunEvent::InitializeAcked => {
                    if self.init_acked {
                    } else if self.is_host {
                        self.init_acked = true;
                        actions.push(RunAction::InjectLocalUser);
                        actions.push(RunAction::CreateLobby);
                    } else {
                        self.init_acked = true;
                        self.pre_network_done = true;
                        actions.push(RunAction::InjectLocalUser);
                        self.join_if_prepared(&mut actions);
                    }
                },
                RunEvent::MapSelected(res) => {
                    if self.is_host && self.init_acked && !self.pre_network_done {
                        match res {
                            Err(err) => return self.fail(err),
                            Ok(code) => match map_selection_result(code) {
                                Err(err) => return self.fail(err),
                                Ok(()) => {
                                    self.pre_network_done = true;
                                    actions.push(RunAction::InitGameNetwork);
                                    self.join_if_prepared(&mut actions);
                                },
                            },
                        }
                    }
                },
                RunEvent::NetworkReady(res) => {
                    if !self.network_ready {
                        match res {
                            Err(msg) => return self.fail(GameInitError::NetworkInit(msg)),
                            Ok(()) => {
                                self.network_ready = true;
                                self.join_if_prepared(&mut actions);
                            },
                        }
                    }
                },
                RunEvent::WndProcStarted => {
                    if !self.wnd_proc_started {
                        self.wnd_proc_started = true;
                        self.join_if_prepared(&mut actions);
                    }
                },
                _ => {},
            },
            Stage::Joining => match event {
                RunEvent::Joined(ok) => {
                    if !ok {
                        return self.fail(GameInitError::CouldNotJoin);
                    }
                    self.stage = Stage::AwaitingAllPlayers;
                    actions.push(RunAction::InitGameNetwork);
                    actions.push(RunAction::SetupSlots);
                    actions.push(RunAction::NotifyInLobby);
                },
                _ => {},
            },
            Stage::AwaitingAllPlayers => match event {
                RunEvent::PlayersJoined(res) => match res {
                    Err(err) => return self.fail(err),
                    Ok(()) => {
                        self.stage = Stage::Starting;
                        actions.push(RunAction::FinalizeLobby);
                        actions.push(RunAction::EndWndProc);
                        actions.push(RunAction::SendGameStart);
                    },
                },
                _ => {},
            },
            Stage::Starting => match event {
                RunEvent::StartSent => {
                    self.stage = Stage::Playing;
                    actions.push(RunAction::SendStartGame);
                },
                _ => {},
            },
            Stage::Playing => match event {
                RunEvent::GameFinished(result) => {
                    self.stage = Stage::Ending;
                    actions.push(RunAction::SendGameEnd(result));
                },
                _ => {},
            },
            Stage::Ending => match event {
                RunEvent::EndSent => {
                    self.stage = Stage::Done;
                },
                _ => {},
            },
            _ => {},
        }
        proof {
            let s = run_step(*old(self), event);
            assert(actions@ =~= s.1);
        }
        actions
    }
}

} // verus!
