//! Messages exchanged between the command-line role and the menu-bar role,
//! and between the menu-bar role and the privileged helper.

use vstd::prelude::*;
use crate::clock::LocalDateTime;
use crate::mode::{LidState, Modifiers, PowerSource, Schedule};

verus! {

/// State of the privileged helper as seen by the menu-bar role.
#[derive(Debug, Clone, PartialEq, Eq)]
pub enum HelperStatus {
    NotInstalled,
    NeedsApproval,
    Running,
    Stopped,
    Error { message: String },
}

/// Everything a client needs to render the current state.
#[derive(Debug, Clone, PartialEq, Eq)]
pub struct Snapshot {
    pub preventing_sleep_now: bool,
    pub enabled: bool,
    pub until: Option<LocalDateTime>,
    pub modifiers: Modifiers,
    pub lid: LidState,
    pub power: PowerSource,
    pub helper: HelperStatus,
    pub start_at_login: bool,
    pub activate_at_launch: bool,
    pub default_duration_minutes: Option<u32>,
    pub battery_threshold_pct: Option<u8>,
    pub prevent_display_sleep: bool,
    pub in_transit_timeout_minutes: Option<u32>,
}

/// A request from the command line to the menu-bar role.
///
/// In `SetPreferences` every field is optional: `None` leaves the current
/// value alone. The doubly optional fields distinguish "leave alone"
/// (`None`), "clear" (`Some(None)`) and "set" (`Some(Some(v))`).
#[derive(Debug, Clone, PartialEq, Eq)]
pub enum ControlRequest {
    GetStatus,
    SetEnabled { enabled: bool, until: Option<LocalDateTime> },
    SetPreferences {
        start_at_login: Option<bool>,
        activate_at_launch: Option<bool>,
        default_duration_minutes: Option<Option<u32>>,
        battery_threshold_pct: Option<Option<u8>>,
        prevent_display_sleep: Option<bool>,
        schedule: Option<Option<Schedule>>,
    },
    Ping,
}

/// The menu-bar role's answer to a `ControlRequest`.
#[derive(Debug, Clone, PartialEq, Eq)]
pub enum ControlResponse {
    Success { state: Snapshot },
    Pong,
    Error { message: String },
}

/// A request from the menu-bar role to the privileged helper.
#[derive(Debug, Clone, Copy, PartialEq, Eq, Structural)]
pub enum HelperRequest {
    SetSleepPrevention { enabled: bool },
    GetStatus,
    Ping,
}

/// The helper's answer to a `HelperRequest`.
#[derive(Debug, Clone, PartialEq, Eq)]
pub enum HelperResponse {
    SetSleepPreventionOk,
    StatusOk { sleep_prevention_active: bool },
    Pong,
    Error { message: String },
}

/// The message used when a response has an unexpected shape.
pub open spec fn unexpected_response_message() -> Seq<char> {
    seq!['u', 'n', 'e', 'x', 'p', 'e', 'c', 't', 'e', 'd', ' ', 'r', 'e', 's', 'p', 'o', 'n', 's', 'e']
}

/// The characters of the "unexpected response" message.
pub fn unexpected_response() -> (r: String)
    ensures
        r@ == unexpected_response_message(),
{
    let v = vec!['u', 'n', 'e', 'x', 'p', 'e', 'c', 't', 'e', 'd', ' ', 'r', 'e', 's', 'p', 'o', 'n', 's', 'e'];
    let r = crate::text::string_of(&v);
    assert(r@ =~= unexpected_response_message());
    r
}

/// Reduce a response to the snapshot it carries. An `Error` response yields
/// its message; any other shape is an "unexpected response" error.
pub fn extract_snapshot(resp: ControlResponse) -> (r: Result<Snapshot, String>)
    ensures
        match resp {
            ControlResponse::Success { state } => r == Ok::<Snapshot, String>(state),
            ControlResponse::Error { message } => r == Err::<Snapshot, String>(message),
            ControlResponse::Pong => r matches Err(m) && m@ == unexpected_response_message(),
        },
{
    match resp {
        ControlResponse::Success { state } => Ok(state),
        ControlResponse::Error { message } => Err(message),
        ControlResponse::Pong => Err(unexpected_response()),
    }
}

/// Check that a response is `Ok`, for callers that do not need the
/// snapshot. Errors as in `extract_snapshot`.
pub fn expect_ok(resp: ControlResponse) -> (r: Result<(), String>)
    ensures
        match resp {
            ControlResponse::Success { .. } => r is Ok,
            ControlResponse::Error { message } => r == Err::<(), String>(message),
            ControlResponse::Pong => r matches Err(m) && m@ == unexpected_response_message(),
        },
{
    match resp {
        ControlResponse::Success { .. } => Ok(()),
        ControlResponse::Error { message } => Err(message),
        ControlResponse::Pong => Err(unexpected_response()),
    }
}

/// The request that sets the schedule to `sched`, leaving every other
/// preference untouched.
pub fn build_set_schedule_request(sched: Schedule) -> (r: ControlRequest)
    ensures
        r == (ControlRequest::SetPreferences {
            start_at_login: None,
            activate_at_launch: None,
            default_duration_minutes: None,
            battery_threshold_pct: None,
            prevent_display_sleep: None,
            schedule: Some(Some(sched)),
        }),
{
    ControlRequest::SetPreferences {
        start_at_login: None,
        activate_at_launch: None,
        default_duration_minutes: None,
        battery_threshold_pct: None,
        prevent_display_sleep: None,
        schedule: Some(Some(sched)),
    }
}

/// The request that clears the schedule (`Some(None)`, as opposed to the
/// "leave alone" `None`), leaving every other preference untouched.
pub fn build_clear_schedule_request() -> (r: ControlRequest)
    ensures
        r == (ControlRequest::SetPreferences {
            start_at_login: None,
            activate_at_launch: None,
            default_duration_minutes: None,
            battery_threshold_pct: None,
            prevent_display_sleep: None,
            schedule: Some(None),
        }),
{
    ControlRequest::SetPreferences {
        start_at_login: None,
        activate_at_launch: None,
        default_duration_minutes: None,
        battery_threshold_pct: None,
        prevent_display_sleep: None,
        schedule: Some(None),
    }
}

} // verus!
