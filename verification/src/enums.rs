use vstd::prelude::*;

verus! {

/// Logging levels, from the most severe to the most verbose. Only messages
/// from the level in effect and below are logged.
#[derive(Clone, Copy, Debug, PartialEq, Eq, Structural)]
pub enum LogLevel {
    Critical,
    Error,
    Warning,
    Info,
    Debug,
}

/// The number by which the C library denotes a logging level.
pub open spec fn log_level_number(level: LogLevel) -> i32 {
    match level {
        LogLevel::Critical => 10,
        LogLevel::Error => 20,
        LogLevel::Warning => 30,
        LogLevel::Info => 40,
        LogLevel::Debug => 50,
    }
}

/// The logging level that the C library denotes by `raw`, if any.
pub open spec fn log_level_of_number(raw: i32) -> Option<LogLevel> {
    if raw == 10 {
        Some(LogLevel::Critical)
    } else if raw == 20 {
        Some(LogLevel::Error)
    } else if raw == 30 {
        Some(LogLevel::Warning)
    } else if raw == 40 {
        Some(LogLevel::Info)
    } else if raw == 50 {
        Some(LogLevel::Debug)
    } else {
        None
    }
}

impl LogLevel {
    /// The number by which the C library denotes this level.
    pub fn to_raw(self) -> (raw: i32)
        ensures
            raw == log_level_number(self),
    {
        match self {
            LogLevel::Critical => 10,
            LogLevel::Error => 20,
            LogLevel::Warning => 30,
            LogLevel::Info => 40,
            LogLevel::Debug => 50,
        }
    }

    /// The level that the C library denotes by `raw`; `None` for a number that
    /// names no level.
    pub fn from_raw(raw: i32) -> (level: Option<LogLevel>)
        ensures
            level == log_level_of_number(raw),
            level is Some <==> (raw == 10 || raw == 20 || raw == 30 || raw == 40 || raw == 50),
    {
        if raw == 10 {
            Some(LogLevel::Critical)
        } else if raw == 20 {
            Some(LogLevel::Error)
        } else if raw == 30 {
            Some(LogLevel::Warning)
        } else if raw == 40 {
            Some(LogLevel::Info)
        } else if raw == 50 {
            Some(LogLevel::Debug)
        } else {
            None
        }
    }
}

/// Reading back the number of a level gives the level: the two encodings
/// are inverse to each other, and no two levels share a number.
pub proof fn lemma_log_level_round_trip(level: LogLevel, raw: i32)
    ensures
        log_level_of_number(log_level_number(level)) == Some(level),
        log_level_of_number(raw) == Some(level) ==> log_level_number(level) == raw,
{
}

/// The numbers follow the severity order: a more verbose level has a larger
/// number.
pub proof fn lemma_log_level_order()
    ensures
        log_level_number(LogLevel::Critical) < log_level_number(LogLevel::Error),
        log_level_number(LogLevel::Error) < log_level_number(LogLevel::Warning),
        log_level_number(LogLevel::Warning) < log_level_number(LogLevel::Info),
        log_level_number(LogLevel::Info) < log_level_number(LogLevel::Debug),
{
}

/// Specifies the direction of the key (press / release).
#[derive(Clone, Copy, Debug, PartialEq, Eq, Structural)]
pub enum KeyDirection {
    /// the key was released
    Up,
    /// the key was pressed
    Down,
}

/// The number by which the C library denotes a key direction.
pub open spec fn key_direction_number(direction: KeyDirection) -> u32 {
    match direction {
        KeyDirection::Up => 0,
        KeyDirection::Down => 1,
    }
}

impl KeyDirection {
    /// The number by which the C library denotes this direction: 0 for a
    /// release, 1 for a press.
    pub fn to_raw(self) -> (raw: u32)
        ensures
            raw == key_direction_number(self),
    {
        match self {
            KeyDirection::Up => 0,
            KeyDirection::Down => 1,
        }
    }
}

} // verus!
