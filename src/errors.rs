use vstd::prelude::*;

verus! {

/// A rejection reported by the engine's map-selection primitive.
#[derive(Clone, Copy, PartialEq, Eq, Structural, Debug)]
pub enum BwError {
    Unknown,
    /// The scenario is meant for the expansion set.
    Invalid,
    /// The map can only be played with the "use map settings" game type.
    WrongGameType,
    /// A ladder game needs an authenticated ladder map.
    LadderBadAuth,
    /// A game by that name already exists.
    AlreadyExists,
    /// Too many games already run on this network.
    TooManyNames,
    /// The game could not be created.
    BadParameters,
    /// The selected scenario is not valid.
    InvalidPlayerCount,
    /// The map does not support the selected game type and options.
    UnsupportedGameType,
    /// A saved game needs a password.
    MissingSaveGamePassword,
    /// A replay needs a password.
    MissingReplayPassword,
    /// The entry is a directory.
    IsDirectory,
    /// The map has no slot for a human participant.
    NoHumanSlots,
    /// At least one computer opponent is needed.
    NoComputerSlots,
    /// A league game needs an official league map.
    InvalidLeagueMap,
    /// The selected game type is unavailable.
    GameTypeUnavailable,
    /// The map has too few player slots for the game type.
    NotEnoughSlots,
    /// League games need the expansion.
    LeagueMissingBroodwar,
    /// A league game needs an authenticated ladder map.
    LeagueBadAuth,
}

/// Every way in which setting up a game can fail.
#[derive(Clone, PartialEq, Eq, Debug)]
pub enum GameInitError {
    SettingsNotSet,
    LocalUserNotSet,
    RoutesNotSet,
    /// The run was torn down, or a channel it waited on closed.
    Closed,
    MapNotFound,
    /// A second wait for players was asked for while one is armed.
    GameInitAlreadyInProgress,
    /// A present participant matches no requested slot.
    UnexpectedPlayer(String),
    /// A participant bound to one session id showed up under another.
    StormIdChanged(String),
    /// The network collaborator failed; its own description.
    NetworkInit(String),
    UnknownGameType(String, Option<u8>),
    Bw(BwError),
    /// A path that the engine's code page cannot represent.
    NonAnsiPath(String),
    /// The local user observes, and observer chat allies are not supported.
    ObserverNotSupported,
    /// The engine reported that joining the host's lobby did not succeed.
    CouldNotJoin,
}

/// What the engine's numeric rejection code means.
pub open spec fn bw_error_of(code: u32) -> BwError {
    if code == 0x8000_0001 {
        BwError::Invalid
    } else if code == 0x8000_0002 {
        BwError::WrongGameType
    } else if code == 0x8000_0003 {
        BwError::LadderBadAuth
    } else if code == 0x8000_0004 {
        BwError::AlreadyExists
    } else if code == 0x8000_0005 {
        BwError::TooManyNames
    } else if code == 0x8000_0006 {
        BwError::BadParameters
    } else if code == 0x8000_0007 {
        BwError::InvalidPlayerCount
    } else if code == 0x8000_0008 {
        BwError::UnsupportedGameType
    } else if code == 0x8000_0009 {
        BwError::MissingSaveGamePassword
    } else if code == 0x8000_000a {
        BwError::MissingReplayPassword
    } else if code == 0x8000_000b {
        BwError::IsDirectory
    } else if code == 0x8000_000c {
        BwError::NoHumanSlots
    } else if code == 0x8000_000d {
        BwError::NoComputerSlots
    } else if code == 0x8000_000e {
        BwError::InvalidLeagueMap
    } else if code == 0x8000_000f {
        BwError::GameTypeUnavailable
    } else if code == 0x8000_0010 {
        BwError::NotEnoughSlots
    } else if code == 0x8000_0011 {
        BwError::LeagueMissingBroodwar
    } else if code == 0x8000_0012 {
        BwError::LeagueBadAuth
    } else {
        BwError::Unknown
    }
}

/// Translates the engine's numeric rejection code.
pub fn bw_error_from_code(code: u32) -> (r: BwError)
    ensures
        r == bw_error_of(code),
{
    match code {
        0x8000_0001 => BwError::Invalid,
        0x8000_0002 => BwError::WrongGameType,
        0x8000_0003 => BwError::LadderBadAuth,
        0x8000_0004 => BwError::AlreadyExists,
        0x8000_0005 => BwError::TooManyNames,
        0x8000_0006 => BwError::BadParameters,
        0x8000_0007 => BwError::InvalidPlayerCount,
        0x8000_0008 => BwError::UnsupportedGameType,
        0x8000_0009 => BwError::MissingSaveGamePassword,
        0x8000_000a => BwError::MissingReplayPassword,
        0x8000_000b => BwError::IsDirectory,
        0x8000_000c => BwError::NoHumanSlots,
        0x8000_000d => BwError::NoComputerSlots,
        0x8000_000e => BwError::InvalidLeagueMap,
        0x8000_000f => BwError::GameTypeUnavailable,
        0x8000_0010 => BwError::NotEnoughSlots,
        0x8000_0011 => BwError::LeagueMissingBroodwar,
        0x8000_0012 => BwError::LeagueBadAuth,
        _ => BwError::Unknown,
    }
}

/// What the map-selection primitive's result means: zero is success, anything
/// else is the engine's rejection.
pub fn map_selection_result(code: u32) -> (r: Result<(), GameInitError>)
    ensures
        code == 0 ==> r is Ok,
        code != 0 ==> r == Err::<(), GameInitError>(GameInitError::Bw(bw_error_of(code))),
{
    if code == 0 {
        Ok(())
    } else {
        Err(GameInitError::Bw(bw_error_from_code(code)))
    }
}

} // verus!
