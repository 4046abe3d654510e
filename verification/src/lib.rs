//! Core of a cron-like job scheduling daemon.
//!
//! The library holds the scheduling and execution engine: the calendar
//! arithmetic that advances due-times (`time`), the job definitions and the
//! trigger model (`entry`), the per-job runtime state machine (`work`), the
//! persisted entry store and the control-plane decisions (`store`), and the
//! command-line parsers that build operations and entries (`args`).
//!
//! Everything that must touch the operating system — spawning and killing
//! processes, reading the clock and the local time zone, user-account lookup,
//! the HTTP transport and the config file on disk — either sits behind a
//! small trusted wrapper (the clock and the time-zone conversions, which rely
//! on chrono) or is left to the surrounding binary, which hands plain values
//! in and out.

pub mod args;
pub mod entry;
pub mod store;
pub mod time;
pub mod work;
