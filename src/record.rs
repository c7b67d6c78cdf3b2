//! Log records and the instants they carry.
use vstd::prelude::*;

use crate::level::Level;

verus! {

/// The last whole second since the UNIX epoch that chrono can represent
/// (the end of December 31, 262142).
pub const MAX_TIMESTAMP_SECS: i64 = 8210266876799;

/// The first whole second since the UNIX epoch that chrono can represent
/// (the start of January 1, 262144 BCE).
pub const MIN_TIMESTAMP_SECS: i64 = -8334601228800;

/// A UTC instant: whole seconds since the UNIX epoch and the nanoseconds past them.
#[derive(Clone, Copy, Debug, PartialEq, Eq, Structural)]
pub struct Timestamp {
    pub secs: i64,
    pub nanos: u32,
}

impl Timestamp {
    /// An instant that chrono can represent: the seconds in its range, and the
    /// nanoseconds under one second, or under two in the last second of a minute
    /// (a leap second).
    pub open spec fn wf(&self) -> bool {
        &&& MIN_TIMESTAMP_SECS <= self.secs <= MAX_TIMESTAMP_SECS
        &&& (self.nanos < 1_000_000_000 || (self.nanos < 2_000_000_000 && self.secs % 60 == 59))
    }

    /// The instant `secs` seconds and `nanos` nanoseconds after the epoch, where
    /// that is in range.
    pub fn new(secs: i64, nanos: u32) -> (r: Option<Timestamp>)
        ensures
            r is Some <==> (Timestamp { secs, nanos }).wf(),
            r is Some ==> r->0 == (Timestamp { secs, nanos }),
    {
        if secs < MIN_TIMESTAMP_SECS || secs > MAX_TIMESTAMP_SECS {
            return None;
        }
        // The lower bound is a whole number of minutes, so counting from it
        // gives the second within the minute.
        let from_min = (secs - MIN_TIMESTAMP_SECS) as u64;
        proof {
            assert(secs % 60 == (from_min as int) % 60) by (nonlinear_arith)
                requires
                    from_min as int == secs - MIN_TIMESTAMP_SECS,
                    MIN_TIMESTAMP_SECS % 60 == 0,
            ;
        }
        if nanos < 1_000_000_000 || (nanos < 2_000_000_000 && from_min % 60 == 59) {
            Some(Timestamp { secs, nanos })
        } else {
            None
        }
    }

    /// The current instant, from the system clock.
    pub fn now() -> (r: Timestamp)
        ensures
            r.wf(),
    {
        let (secs, nanos) = utc_now();
        Timestamp { secs, nanos }
    }
}

/// Relies on chrono::Utc::now: it builds its value with `DateTime::from_timestamp`
/// from the seconds since the epoch and their sub-second nanoseconds, so the
/// seconds are non-negative and in chrono's range and the nanoseconds under one second.
/// (It panics on a system clock set before the epoch.)
#[verifier::external_body]
fn utc_now() -> (r: (i64, u32))
    ensures
        0 <= r.0 <= MAX_TIMESTAMP_SECS,
        r.1 < 1_000_000_000,
{
    let now = chrono::Utc::now();
    (now.timestamp(), now.timestamp_subsec_nanos())
}

/// Where in the source a record was emitted.
#[derive(Clone, Debug, PartialEq, Eq)]
pub struct SourceLocation {
    pub file_name: String,
    pub line: u32,
}

/// One log event.
#[derive(Clone, Debug)]
pub struct Record {
    pub level: Level,
    pub payload: String,
    pub logger_name: Option<String>,
    pub time: Timestamp,
    pub source_location: Option<SourceLocation>,
}

impl Record {
    /// A record of `level` and `payload`, stamped with the current time, with no
    /// logger name and no source location.
    pub fn new(level: Level, payload: &str) -> (r: Record)
        ensures
            r.level == level,
            r.payload@ == payload@,
            r.logger_name is None,
            r.source_location is None,
            r.time.wf(),
    {
        Record {
            level,
            payload: payload.to_owned(),
            logger_name: None,
            time: Timestamp::now(),
            source_location: None,
        }
    }

    /// The record with its logger name set.
    pub fn with_logger_name(self, name: &str) -> (r: Record)
        ensures
            r.logger_name is Some,
            r.logger_name->0@ == name@,
            r.level == self.level,
            r.payload@ == self.payload@,
            r.time == self.time,
            r.source_location == self.source_location,
    {
        Record { logger_name: Some(name.to_owned()), ..self }
    }

    /// The record with its source location set.
    pub fn with_source_location(self, file_name: &str, line: u32) -> (r: Record)
        ensures
            r.source_location is Some,
            r.source_location->0.file_name@ == file_name@,
            r.source_location->0.line == line,
            r.level == self.level,
            r.payload@ == self.payload@,
            r.time == self.time,
            r.logger_name == self.logger_name,
    {
        Record { source_location: Some(SourceLocation { file_name: file_name.to_owned(), line }), ..self }
    }

    /// The record with its time set.
    pub fn with_time(self, time: Timestamp) -> (r: Record)
        ensures
            r.time == time,
            r.level == self.level,
            r.payload@ == self.payload@,
            r.logger_name == self.logger_name,
            r.source_location == self.source_location,
    {
        Record { time, ..self }
    }

    pub fn level(&self) -> (r: Level)
        ensures
            r == self.level,
    {
        self.level
    }

    pub fn payload(&self) -> (r: &str)
        ensures
            r@ == self.payload@,
    {
        self.payload.as_str()
    }

    pub fn time(&self) -> (r: Timestamp)
        ensures
            r == self.time,
    {
        self.time
    }
}

} // verus!
