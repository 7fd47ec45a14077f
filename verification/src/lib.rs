//! Open-Lid: the verified core of a keep-awake utility.
//!
//! Platform-independent types, decision functions and state machines,
//! proved against their contracts by Verus. The few calls into other crates
//! and std that Verus cannot read (chrono's time parsing, semver, SHA-256,
//! path comparison and existence, collecting characters into a `String`) sit
//! behind `external_body` wrappers whose contracts are trusted; the thin
//! layer that talks to the operating system lives outside this crate.

pub mod text;
pub mod days;
pub mod clock;
pub mod mode;
pub mod platform;
pub mod state;
pub mod config;
pub mod ipc;
pub mod runtime;
pub mod recovery;
pub mod cli;
pub mod release;
pub mod install_detect;
pub mod installer;
pub mod helper;
pub mod commands;
pub mod flows;
pub mod menu;
pub mod prefs;
pub mod pmset;
