//! Log lines that the receiver publishes to the dashboard, and the clock
//! readings that stamp them.

use vstd::prelude::*;
use crate::text::{decimal_spec, decimal_string};

verus! {

#[verifier::external_type_specification]
#[verifier::external_body]
pub struct ExSystemTime(std::time::SystemTime);

/// Calls `std::time::SystemTime::now`. The clock's reading is not stated.
#[verifier::external_body]
fn system_time_now() -> std::time::SystemTime {
    std::time::SystemTime::now()
}

/// Calls `SystemTime::duration_since` with the Unix epoch, keeping the
/// duration when the time is not before the epoch. Nothing is stated of
/// the result: it depends on the clock reading.
#[verifier::external_body]
fn since_unix_epoch(time: &std::time::SystemTime) -> Option<core::time::Duration> {
    time.duration_since(std::time::UNIX_EPOCH).ok()
}

/// Calls `Duration::as_millis`. Nothing is stated of the number, which
/// depends on a clock reading here.
#[verifier::external_body]
fn duration_millis(duration: &core::time::Duration) -> u128 {
    duration.as_millis()
}

/// Milliseconds since the Unix epoch by the system clock, or 0 when the
/// clock stands before the epoch.
fn unix_millis_now() -> u128 {
    let now = system_time_now();
    match since_unix_epoch(&now) {
        Some(elapsed) => duration_millis(&elapsed),
        None => 0,
    }
}

/// The current time in milliseconds since the Unix epoch, in decimal.
pub fn now_millis_string() -> (s: String)
    ensures
        exists|m: nat| s@ == decimal_spec(m),
{
    decimal_string(unix_millis_now())
}

/// How important a log line is.
#[derive(Clone, Copy, Debug, PartialEq, Eq, Structural)]
pub enum LogLevel {
    Info,
    Packet,
    Warn,
    Error,
}

/// One log line for the dashboard.
#[derive(Clone, Debug, PartialEq, Eq)]
pub struct LogEvent {
    pub id: String,
    pub timestamp: String,
    pub level: LogLevel,
    pub message: String,
}

impl LogEvent {
    /// A log line stamped with `millis`: its id and timestamp are both the
    /// decimal millisecond count.
    pub fn at_millis(level: LogLevel, message: String, millis: u128) -> (e: LogEvent)
        ensures
            e.id@ == decimal_spec(millis as nat),
            e.timestamp@ == decimal_spec(millis as nat),
            e.level == level,
            e.message == message,
    {
        LogEvent {
            id: decimal_string(millis),
            timestamp: decimal_string(millis),
            level,
            message,
        }
    }

    /// A log line stamped with the current time.
    pub fn new(level: LogLevel, message: String) -> (e: LogEvent)
        ensures
            e.id@ == e.timestamp@,
            exists|m: nat| e.id@ == decimal_spec(m),
            e.level == level,
            e.message == message,
    {
        LogEvent::at_millis(level, message, unix_millis_now())
    }
}

} // verus!
