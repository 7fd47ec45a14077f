//! What the menu-bar role shows and posts: the status header, the network
//! reachability reading, and the notifications about the helper.

use vstd::prelude::*;
use crate::clock::hh_mm;
use crate::ipc::Snapshot;
use crate::install_detect::InstallMethod;
use crate::mode::{LidState, PowerSource};
use crate::release::{CURRENT_VERSION, ReleaseError, ReleaseInfo, current_version,
    invalid_build_version_text, invalid_version_text, is_newer_than_current, release_error_text,
    semver_accepts, semver_reason, semver_greater, strip_v_prefix,
    version_of_tag};
use crate::text::{chars_of, decimal, push_chars, push_decimal, push_lit, string_of};

verus! {

/// The first line of the menu: prevention state, lid and power.
pub open spec fn prevention_text(s: Snapshot) -> Seq<char> {
    if s.preventing_sleep_now {
        match s.until {
            Some(t) => "Active until "@ + hh_mm(t.time),
            None => "Active (indefinite)"@,
        }
    } else if s.enabled {
        "Armed (idle)"@
    } else {
        "Off"@
    }
}

/// The power source as the menu shows it.
pub open spec fn menu_power_text(p: PowerSource) -> Seq<char> {
    match p {
        PowerSource::Ac => "AC"@,
        PowerSource::Battery { percent } => "battery "@ + decimal(percent as nat) + "%"@,
    }
}

/// The menu's status line: `<prevention> · <lid> · <power>`.
pub open spec fn status_header(s: Snapshot) -> Seq<char> {
    prevention_text(s) + " \u{b7} "@ + (if s.lid == LidState::Open {
        "lid open"@
    } else {
        "lid closed"@
    }) + " \u{b7} "@ + menu_power_text(s.power)
}

/// Render the menu's status line, e.g. `Active until 18:30 · lid open · AC`.
pub fn format_status_header(snap: &Snapshot) -> (r: String)
    ensures
        r@ == status_header(*snap),
{
    let mut out: Vec<char> = Vec::new();
    if snap.preventing_sleep_now {
        match &snap.until {
            Some(t) => {
                push_lit(&mut out, "Active until ");
                push_chars(&mut out, &t.time.format_hh_mm());
            },
            None => push_lit(&mut out, "Active (indefinite)"),
        }
    } else if snap.enabled {
        push_lit(&mut out, "Armed (idle)");
    } else {
        push_lit(&mut out, "Off");
    }
    let ghost a = out@;
    push_lit(&mut out, " \u{b7} ");
    match snap.lid {
        LidState::Open => push_lit(&mut out, "lid open"),
        LidState::Closed => push_lit(&mut out, "lid closed"),
    }
    push_lit(&mut out, " \u{b7} ");
    let ghost b = out@;
    match snap.power {
        PowerSource::Ac => push_lit(&mut out, "AC"),
        PowerSource::Battery { percent } => {
            push_lit(&mut out, "battery ");
            push_decimal(&mut out, percent as u64);
            push_lit(&mut out, "%");
        },
    }
    assert(a =~= prevention_text(*snap));
    assert(out@ =~= b + menu_power_text(snap.power));
    assert(out@ =~= status_header(*snap));
    string_of(&out)
}

/// The reachability flag "a route exists".
pub const SC_REACHABLE: u32 = 2;

/// The reachability flag "a connection must first be brought up".
pub const SC_CONNECTION_REQUIRED: u32 = 4;

/// Reachable means a route exists and no connection has to be brought up
/// first; every other flag is ignored.
pub open spec fn reachable_flags(flags: u32) -> bool {
    (flags & SC_REACHABLE) != 0 && (flags & SC_CONNECTION_REQUIRED) == 0
}

/// Read the network-reachability flags as a single "reachable" answer.
pub fn flags_to_reachable(flags: u32) -> (r: bool)
    ensures
        r == reachable_flags(flags),
{
    (flags & SC_REACHABLE) != 0 && (flags & SC_CONNECTION_REQUIRED) == 0
}

/// Whether the user answered the notification permission request.
#[derive(Debug, Clone, Copy, PartialEq, Eq, Structural)]
pub enum NotificationAuth {
    /// No answer yet.
    Unknown,
    Granted,
    Denied,
}

/// The permission state after the system answered the request.
pub fn auth_from_reply(granted: bool) -> (r: NotificationAuth)
    ensures
        r == if granted {
            NotificationAuth::Granted
        } else {
            NotificationAuth::Denied
        },
{
    if granted {
        NotificationAuth::Granted
    } else {
        NotificationAuth::Denied
    }
}

/// Whether notifications were refused (so a banner would never show and
/// the settings must be opened directly instead).
pub fn auth_denied(auth: NotificationAuth) -> (r: bool)
    ensures
        r == (auth == NotificationAuth::Denied),
{
    match auth {
        NotificationAuth::Denied => true,
        _ => false,
    }
}

/// The category of the helper-recovery notifications.
pub const CATEGORY_ID: &'static str = "io.openlid.helper_recovery";

/// The identifier of the "open settings" action.
pub const ACTION_OPEN_SETTINGS: &'static str = "open_settings";

/// A notification to post: identifier, title, body, and whether it offers
/// the "Open System Settings" action.
#[derive(Debug, Clone, PartialEq, Eq)]
pub struct Notice {
    pub request_id: String,
    pub title: String,
    pub body: String,
    pub with_action: bool,
}

/// The banner asking the user to approve the helper; it offers the action
/// that opens the settings.
pub fn approval_notice() -> (r: Notice)
    ensures
        r.request_id@ == "io.openlid.helper-approval"@,
        r.title@ == "OpenLid isn't keeping your Mac awake"@,
        r.body@ == "Approve OpenLid in System Settings \u{2192} Login Items so it can prevent sleep."@,
        r.with_action,
{
    Notice {
        request_id: string_of(&chars_of("io.openlid.helper-approval")),
        title: string_of(&chars_of("OpenLid isn't keeping your Mac awake")),
        body: string_of(
            &chars_of(
                "Approve OpenLid in System Settings \u{2192} Login Items so it can prevent sleep.",
            ),
        ),
        with_action: true,
    }
}

/// The banner asking the user to move the application into the
/// Applications folder; no action can fix that, so it offers none.
pub fn not_found_notice() -> (r: Notice)
    ensures
        r.request_id@ == "io.openlid.helper-not-found"@,
        r.title@ == "OpenLid can't install its helper"@,
        r.body@ == "Move OpenLid into the Applications folder, then reopen it."@,
        !r.with_action,
{
    Notice {
        request_id: string_of(&chars_of("io.openlid.helper-not-found")),
        title: string_of(&chars_of("OpenLid can't install its helper")),
        body: string_of(&chars_of("Move OpenLid into the Applications folder, then reopen it.")),
        with_action: false,
    }
}

/// What "Check for updates" found, with everything the alert shows.
#[derive(Debug, Clone, PartialEq, Eq)]
pub enum UpdateCheckOutcome {
    UpToDate { current: String },
    HomebrewUpdate { latest: String },
    ManualUpdate { latest: String, release: ReleaseInfo },
    DevBuildRefused { path: String },
    Error { message: String },
}

/// The text of a failed update check: what failed, then why.
pub open spec fn check_failure(what: Seq<char>, why: Seq<char>) -> Seq<char> {
    what + ": "@ + why
}

fn failure(what: &str, why: &str) -> (r: UpdateCheckOutcome)
    ensures
        r matches UpdateCheckOutcome::Error { message } && message@ == check_failure(what@, why@),
{
    let mut out: Vec<char> = Vec::new();
    push_lit(&mut out, what);
    push_lit(&mut out, ": ");
    push_lit(&mut out, why);
    UpdateCheckOutcome::Error { message: string_of(&out) }
}

/// Decide what "Check for updates" reports, given the fetched release (or
/// why it could not be fetched) and the install method. A failure at any
/// step is reported with that step's name; a newer release is routed by
/// install method.
pub fn update_check_for_menubar(
    fetched: Result<ReleaseInfo, String>,
    method: &InstallMethod,
) -> (r: UpdateCheckOutcome)
    ensures
        match fetched {
            Err(e) => r matches UpdateCheckOutcome::Error { message } && message@ == check_failure(
                "Couldn't reach the update server"@,
                e@,
            ),
            Ok(rel) => match version_of_tag(rel.tag_name@) {
                None => r matches UpdateCheckOutcome::Error { message } && message@
                    == check_failure(
                    "Couldn't parse the latest version"@,
                    release_error_text(ReleaseError::BadVersionTag(rel.tag_name)),
                ),
                Some(v) => if !semver_accepts(v) {
                    r matches UpdateCheckOutcome::Error { message } && message@ == check_failure(
                        "Couldn't parse the latest version"@,
                        invalid_version_text(rel.tag_name@, semver_reason(v)),
                    )
                } else if !semver_accepts(CURRENT_VERSION@) {
                    r matches UpdateCheckOutcome::Error { message } && message@ == check_failure(
                        "Couldn't parse the latest version"@,
                        invalid_build_version_text(semver_reason(CURRENT_VERSION@)),
                    )
                } else if !semver_greater(v, CURRENT_VERSION@) {
                    r matches UpdateCheckOutcome::UpToDate { current } && current@
                        == CURRENT_VERSION@
                } else {
                    match *method {
                        InstallMethod::Homebrew => r matches UpdateCheckOutcome::HomebrewUpdate {
                            latest,
                        } && latest@ == v,
                        InstallMethod::Dev { path } => r matches UpdateCheckOutcome::DevBuildRefused {
                            path: p,
                        } && p@ == path@,
                        InstallMethod::Manual => r matches UpdateCheckOutcome::ManualUpdate {
                            latest,
                            release,
                        } && latest@ == v && release == rel,
                    }
                },
            },
        },
{
    let release = match fetched {
        Ok(r) => r,
        Err(e) => return failure("Couldn't reach the update server", e.as_str()),
    };
    let available = match is_newer_than_current(release.tag_name.as_str()) {
        Ok(v) => v,
        Err(e) => return failure("Couldn't parse the latest version", e.message().as_str()),
    };
    let current = match current_version() {
        Ok(_) => string_of(&chars_of(CURRENT_VERSION)),
        Err(e) => return failure("Couldn't parse the current version", e.message().as_str()),
    };
    let latest = match strip_v_prefix(release.tag_name.as_str()) {
        Ok(s) => s,
        Err(e) => return failure("Couldn't parse the release tag", e.message().as_str()),
    };
    if !available {
        return UpdateCheckOutcome::UpToDate { current };
    }
    match method {
        InstallMethod::Homebrew => UpdateCheckOutcome::HomebrewUpdate { latest },
        InstallMethod::Dev { path } => UpdateCheckOutcome::DevBuildRefused {
            path: string_of(&chars_of(path.as_str())),
        },
        InstallMethod::Manual => UpdateCheckOutcome::ManualUpdate { latest, release },
    }
}

/// How an alert presents itself.
#[derive(Debug, Clone, Copy, PartialEq, Eq, Structural)]
pub enum AlertStyle {
    Informational,
    Warning,
    Critical,
}

/// A dialog: its style, title, explanatory text and buttons, first button
/// first.
#[derive(Debug, Clone, PartialEq, Eq)]
pub struct Alert {
    pub style: AlertStyle,
    pub title: String,
    pub info: String,
    pub buttons: Vec<String>,
}

/// The most release-note characters an update alert shows.
pub const NOTES_PREVIEW_CHARS: usize = 600;

/// The release notes as the alert shows them: at most the first
/// `NOTES_PREVIEW_CHARS` characters.
pub open spec fn notes_preview(body: Seq<char>) -> Seq<char> {
    if body.len() <= NOTES_PREVIEW_CHARS {
        body
    } else {
        body.take(NOTES_PREVIEW_CHARS as int)
    }
}

/// The closing question of an alert offering to install.
pub open spec fn install_question() -> Seq<char> {
    "Install the new version? Your settings will be preserved."@
}

/// The explanatory text of an alert offering to install, given the
/// release notes.
pub open spec fn install_info(body: Seq<char>) -> Seq<char> {
    if notes_preview(body).len() == 0 {
        install_question()
    } else {
        "Release notes:\n\n"@ + notes_preview(body) + "\n\n"@ + install_question()
    }
}

/// The alert's style for an outcome: a warning for a failed check, plain
/// information otherwise.
pub open spec fn outcome_style(o: UpdateCheckOutcome) -> AlertStyle {
    match o {
        UpdateCheckOutcome::Error { .. } => AlertStyle::Warning,
        _ => AlertStyle::Informational,
    }
}

/// The alert's title for an outcome.
pub open spec fn outcome_title(o: UpdateCheckOutcome) -> Seq<char> {
    match o {
        UpdateCheckOutcome::UpToDate { .. } => "OpenLid is up to date"@,
        UpdateCheckOutcome::HomebrewUpdate { latest } => "Update available: v"@ + latest@,
        UpdateCheckOutcome::ManualUpdate { latest, .. } => "Update available: v"@ + latest@,
        UpdateCheckOutcome::DevBuildRefused { .. } => "Dev build detected"@,
        UpdateCheckOutcome::Error { .. } => "Update check failed"@,
    }
}

/// The alert's explanatory text for an outcome.
pub open spec fn outcome_info(o: UpdateCheckOutcome) -> Seq<char> {
    match o {
        UpdateCheckOutcome::UpToDate { current } => "You're on the latest version (v"@ + current@
            + ")."@,
        UpdateCheckOutcome::HomebrewUpdate { .. } =>
            "This is a Homebrew install. To update, run:\n\n  brew upgrade openlid"@,
        UpdateCheckOutcome::ManualUpdate { release, .. } => install_info(release.body@),
        UpdateCheckOutcome::DevBuildRefused { path } => "OpenLid is running from "@ + path@
            + " -- the updater refuses to replace a dev build. Rebuild from source instead."@,
        UpdateCheckOutcome::Error { message } => message@,
    }
}

/// The alert's buttons for an outcome: "Install Now" and "Later" when a
/// manual install is offered, a single "OK" otherwise.
pub open spec fn outcome_buttons(o: UpdateCheckOutcome) -> Seq<Seq<char>> {
    match o {
        UpdateCheckOutcome::ManualUpdate { .. } => seq!["Install Now"@, "Later"@],
        _ => seq!["OK"@],
    }
}

/// Whether `a` shows `style`, `title`, `info` and `buttons`.
pub open spec fn alert_shows(
    a: Alert,
    style: AlertStyle,
    title: Seq<char>,
    info: Seq<char>,
    buttons: Seq<Seq<char>>,
) -> bool {
    &&& a.style == style
    &&& a.title@ == title
    &&& a.info@ == info
    &&& a.buttons@.len() == buttons.len()
    &&& forall|i: int| 0 <= i < buttons.len() ==> #[trigger] a.buttons@[i]@ == buttons[i]
}

fn text_of(parts: &Vec<char>) -> (r: String)
    ensures
        r@ == parts@,
{
    string_of(parts)
}

fn one_button(label: &str) -> (r: Vec<String>)
    ensures
        r@.len() == 1,
        r@[0]@ == label@,
{
    let mut b: Vec<String> = Vec::new();
    b.push(string_of(&chars_of(label)));
    b
}

/// The release notes shown: at most the first `NOTES_PREVIEW_CHARS`
/// characters of `body`.
pub fn preview_notes(body: &str) -> (r: Vec<char>)
    ensures
        r@ == notes_preview(body@),
{
    let all = chars_of(body);
    let mut out: Vec<char> = Vec::new();
    let mut i: usize = 0;
    while i < all.len() && i < NOTES_PREVIEW_CHARS
        invariant
            i <= all@.len(),
            i <= NOTES_PREVIEW_CHARS,
            all@ == body@,
            out@ == all@.take(i as int),
        decreases all.len() - i,
    {
        out.push(all[i]);
        i = i + 1;
        assert(out@ =~= all@.take(i as int));
    }
    assert(all@.len() <= NOTES_PREVIEW_CHARS ==> all@.take(i as int) =~= all@);
    out
}

/// The dialog that reports what "Check for updates" found.
pub fn update_alert(outcome: &UpdateCheckOutcome) -> (r: Alert)
    ensures
        alert_shows(
            r,
            outcome_style(*outcome),
            outcome_title(*outcome),
            outcome_info(*outcome),
            outcome_buttons(*outcome),
        ),
{
    let mut title: Vec<char> = Vec::new();
    let mut info: Vec<char> = Vec::new();
    match outcome {
        UpdateCheckOutcome::UpToDate { current } => {
            push_lit(&mut title, "OpenLid is up to date");
            push_lit(&mut info, "You're on the latest version (v");
            push_lit(&mut info, current.as_str());
            push_lit(&mut info, ").");
            Alert {
                style: AlertStyle::Informational,
                title: text_of(&title),
                info: text_of(&info),
                buttons: one_button("OK"),
            }
        },
        UpdateCheckOutcome::HomebrewUpdate { latest } => {
            push_lit(&mut title, "Update available: v");
            push_lit(&mut title, latest.as_str());
            push_lit(&mut info, "This is a Homebrew install. To update, run:\n\n  brew upgrade openlid");
            Alert {
                style: AlertStyle::Informational,
                title: text_of(&title),
                info: text_of(&info),
                buttons: one_button("OK"),
            }
        },
        UpdateCheckOutcome::ManualUpdate { latest, release } => {
            push_lit(&mut title, "Update available: v");
            push_lit(&mut title, latest.as_str());
            let notes = preview_notes(release.body.as_str());
            if notes.len() == 0 {
                push_lit(&mut info, "Install the new version? Your settings will be preserved.");
            } else {
                push_lit(&mut info, "Release notes:\n\n");
                push_chars(&mut info, &notes);
                push_lit(&mut info, "\n\n");
                push_lit(&mut info, "Install the new version? Your settings will be preserved.");
            }
            let mut buttons: Vec<String> = Vec::new();
            buttons.push(string_of(&chars_of("Install Now")));
            buttons.push(string_of(&chars_of("Later")));
            Alert {
                style: AlertStyle::Informational,
                title: text_of(&title),
                info: text_of(&info),
                buttons,
            }
        },
        UpdateCheckOutcome::DevBuildRefused { path } => {
            push_lit(&mut title, "Dev build detected");
            push_lit(&mut info, "OpenLid is running from ");
            push_lit(&mut info, path.as_str());
            push_lit(
                &mut info,
                " -- the updater refuses to replace a dev build. Rebuild from source instead.",
            );
            Alert {
                style: AlertStyle::Informational,
                title: text_of(&title),
                info: text_of(&info),
                buttons: one_button("OK"),
            }
        },
        UpdateCheckOutcome::Error { message } => {
            push_lit(&mut title, "Update check failed");
            push_lit(&mut info, message.as_str());
            Alert {
                style: AlertStyle::Warning,
                title: text_of(&title),
                info: text_of(&info),
                buttons: one_button("OK"),
            }
        },
    }
}

/// The dialog shown when installing from the menu bar failed with `error`.
pub fn install_failed_alert(error: &str) -> (r: Alert)
    ensures
        alert_shows(r, AlertStyle::Critical, "Install failed"@, error@, seq!["OK"@]),
{
    Alert {
        style: AlertStyle::Critical,
        title: string_of(&chars_of("Install failed")),
        info: string_of(&chars_of(error)),
        buttons: one_button("OK"),
    }
}

} // verus!
