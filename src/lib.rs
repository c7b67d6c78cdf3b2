//! Core of a structured logging library: log records, the basic formatter with
//! its local-time cache, the end-of-line pattern element, and the state machine
//! that decides how the process reacts to a fatal event.
use vstd::prelude::*;

pub mod basic_formatter;
pub mod crash;
pub mod eol;
pub mod level;
pub mod record;
pub mod text;

verus! {

/// An error from formatting a record.
#[derive(Clone, Copy, Debug, PartialEq, Eq, Structural)]
pub enum Error {
    /// Writing the formatted text into the output buffer failed.
    FormatRecord,
}

} // verus!
