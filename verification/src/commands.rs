//! What the command-line subcommands decide and print: the update command's
//! routing and messages, and the texts of `status` and `schedule`.

use vstd::prelude::*;
use crate::cli::UpdateArg;
use crate::clock::{ClockTime, hh_mm, parse_hh_mm, chrono_hh_mm};
use crate::days::{DaysOfWeek, Weekday, day_with_lower_name, every_day, lower, lower_char, no_days};
use crate::ipc::Snapshot;
use crate::mode::{LidState, PowerSource, Schedule};
use crate::install_detect::InstallMethod;
use crate::installer::{joined, join_path};
use crate::release::{AssetInfo, ReleaseError, ReleaseInfo, is_dmg, pick_dmg_asset, parse_digest,
    sha256_prefix};
use crate::text::{chars_of, decimal, push_decimal, has_prefix, join_chars, join_with, push_chars, push_lit, split_chars,
    split_on, string_of, trim, trim_chars};

verus! {

/// The machine-readable name of an install method.
pub open spec fn method_label(m: InstallMethod) -> Seq<char> {
    match m {
        InstallMethod::Homebrew => "homebrew"@,
        InstallMethod::Manual => "manual"@,
        InstallMethod::Dev { .. } => "dev"@,
    }
}

/// The machine-readable name of an install method, for JSON output.
pub fn install_method_label(method: &InstallMethod) -> (r: &'static str)
    ensures
        r@ == method_label(*method),
{
    match method {
        InstallMethod::Homebrew => "homebrew",
        InstallMethod::Manual => "manual",
        InstallMethod::Dev { .. } => "dev",
    }
}

/// The human name of an install method.
pub open spec fn method_title(m: InstallMethod) -> Seq<char> {
    match m {
        InstallMethod::Homebrew => "Homebrew"@,
        InstallMethod::Manual => "Manual install"@,
        InstallMethod::Dev { .. } => "Dev build (not installable)"@,
    }
}

/// The human-readable update status: four labelled lines.
pub open spec fn update_status_text(
    current: Seq<char>,
    latest: Seq<char>,
    available: bool,
    m: InstallMethod,
) -> Seq<char> {
    "Current version:  "@ + current + "\n"@ + "Latest version:   "@ + latest + "\n"@
        + "Status:           "@ + (if available {
        "Update available"@
    } else {
        "Up to date"@
    }) + "\n"@ + "Install method:   "@ + method_title(m) + "\n"@
}

/// Render the update status for people.
pub fn format_update_status_human(
    current: &str,
    latest: &str,
    available: bool,
    method: &InstallMethod,
) -> (r: String)
    ensures
        r@ == update_status_text(current@, latest@, available, *method),
{
    let mut out: Vec<char> = Vec::new();
    push_lit(&mut out, "Current version:  ");
    push_lit(&mut out, current);
    push_lit(&mut out, "\n");
    push_lit(&mut out, "Latest version:   ");
    push_lit(&mut out, latest);
    push_lit(&mut out, "\n");
    push_lit(&mut out, "Status:           ");
    if available {
        push_lit(&mut out, "Update available");
    } else {
        push_lit(&mut out, "Up to date");
    }
    push_lit(&mut out, "\n");
    push_lit(&mut out, "Install method:   ");
    match method {
        InstallMethod::Homebrew => push_lit(&mut out, "Homebrew"),
        InstallMethod::Manual => push_lit(&mut out, "Manual install"),
        InstallMethod::Dev { .. } => push_lit(&mut out, "Dev build (not installable)"),
    }
    push_lit(&mut out, "\n");
    assert(out@ =~= update_status_text(current@, latest@, available, *method));
    string_of(&out)
}

/// A prompt answer means yes: after trimming white space and lower-casing,
/// it is `y` or `yes`.
pub open spec fn answers_yes(input: Seq<char>) -> bool {
    lower(trim(input)) == "y"@ || lower(trim(input)) == "yes"@
}

pub fn lower_chars(v: &Vec<char>) -> (r: Vec<char>)
    ensures
        r@ == lower(v@),
{
    let mut r: Vec<char> = Vec::new();
    let mut i: usize = 0;
    while i < v.len()
        invariant
            i <= v.len(),
            r@ == lower(v@.take(i as int)),
        decreases v.len() - i,
    {
        let c = v[i];
        let l = if 'A' <= c && c <= 'Z' {
            (((c as u32) + 32) as u8) as char
        } else {
            c
        };
        assert(l == lower_char(c));
        r.push(l);
        assert(v@.take(i + 1) =~= v@.take(i as int).push(c));
        i = i + 1;
        assert(r@ =~= lower(v@.take(i as int)));
    }
    assert(v@.take(v@.len() as int) =~= v@);
    r
}

/// Read a y/N prompt answer: `y` or `yes` in any case, surrounding white
/// space ignored; anything else is no.
pub fn parse_yes_no(input: &str) -> (r: bool)
    ensures
        r == answers_yes(input@),
{
    let t = trim_chars(&chars_of(input));
    let l = lower_chars(&t);
    let y = chars_of("y");
    let yes = chars_of("yes");
    crate::text::chars_equal(&l, &y) || crate::text::chars_equal(&l, &yes)
}

/// The message refusing `--check` together with `--yes`.
pub open spec fn check_yes_conflict() -> Seq<char> {
    "--check and --yes are mutually exclusive: --check never installs"@
}

/// `--check` (which never installs) and `--yes` (install without asking)
/// exclude each other.
pub fn validate_update_flags(arg: &UpdateArg) -> (r: Result<(), String>)
    ensures
        r is Ok <==> !(arg.check && arg.yes),
        r matches Err(m) ==> m@ == check_yes_conflict(),
{
    if arg.check && arg.yes {
        return Err(string_of(&chars_of("--check and --yes are mutually exclusive: --check never installs")));
    }
    Ok(())
}

/// What the update command does once a newer release is known.
#[derive(Debug, Clone, PartialEq, Eq)]
pub enum InstallAction {
    /// Print the Homebrew advice; nothing else.
    HomebrewAdvise,
    /// Refuse, naming the development build's path.
    DevRefuse(String),
    /// Ask, then install on confirmation.
    PromptThenInstall,
    /// Install without asking.
    InstallNow,
}

/// Route an install by install method: Homebrew installs are left to
/// Homebrew and development builds are refused, whatever `--yes` says; a
/// manual install asks first unless run non-interactively.
pub fn decide_install_action(method: &InstallMethod, non_interactive: bool) -> (r: InstallAction)
    ensures
        match *method {
            InstallMethod::Homebrew => r == InstallAction::HomebrewAdvise,
            InstallMethod::Dev { path } => r matches InstallAction::DevRefuse(p) && p@ == path@,
            InstallMethod::Manual => r == if non_interactive {
                InstallAction::InstallNow
            } else {
                InstallAction::PromptThenInstall
            },
        },
{
    match method {
        InstallMethod::Homebrew => InstallAction::HomebrewAdvise,
        InstallMethod::Dev { path } => InstallAction::DevRefuse(string_of(&chars_of(path.as_str()))),
        InstallMethod::Manual => if non_interactive {
            InstallAction::InstallNow
        } else {
            InstallAction::PromptThenInstall
        },
    }
}

/// The advice shown to Homebrew users.
pub open spec fn homebrew_advice() -> Seq<char> {
    "\nThis is a Homebrew install. To update, run:\n\n  brew upgrade openlid\n"@
}

/// The advice shown to Homebrew users, with the exact upgrade command.
pub fn format_homebrew_update_advice() -> (r: String)
    ensures
        r@ == homebrew_advice(),
{
    string_of(&chars_of("\nThis is a Homebrew install. To update, run:\n\n  brew upgrade openlid\n"))
}

/// The refusal for a development build, naming its path.
pub open spec fn dev_refusal(path: Seq<char>) -> Seq<char> {
    "you appear to be running a dev build at "@ + path + "; rebuild from source instead"@
}

/// The refusal for a development build.
pub fn format_dev_refusal_message(path: &str) -> (r: String)
    ensures
        r@ == dev_refusal(path@),
{
    let mut out: Vec<char> = Vec::new();
    push_lit(&mut out, "you appear to be running a dev build at ");
    push_lit(&mut out, path);
    push_lit(&mut out, "; rebuild from source instead");
    assert(out@ =~= dev_refusal(path@));
    string_of(&out)
}

/// The warning printed when a release publishes no checksum.
pub fn format_no_digest_warning() -> (r: &'static str)
    ensures
        r@ == "Note: release has no published checksum; Gatekeeper will still verify the signature on relaunch."@,
{
    "Note: release has no published checksum; Gatekeeper will still verify the signature on relaunch."
}

/// The message printed once the installer runs in the background.
pub open spec fn handoff_message(log_path: Seq<char>) -> Seq<char> {
    "\nOpenLid is installing in the background. It will relaunch in a few seconds.\nIf something goes wrong, check the log at:\n  "@
        + log_path
}

/// The message printed once the installer runs in the background, pointing
/// at its log.
pub fn format_install_handoff_message(log_path: &str) -> (r: String)
    ensures
        r@ == handoff_message(log_path@),
{
    let mut out: Vec<char> = Vec::new();
    push_lit(
        &mut out,
        "\nOpenLid is installing in the background. It will relaunch in a few seconds.\nIf something goes wrong, check the log at:\n  ",
    );
    push_lit(&mut out, log_path);
    assert(out@ =~= handoff_message(log_path@));
    string_of(&out)
}

/// What an install will do: fetch `url` into `dest` (inside the cache
/// directory), announce the asset by name and size, and check the SHA-256
/// `digest_hex` when the release published one.
#[derive(Debug, Clone, PartialEq, Eq)]
pub struct InstallPlan {
    pub url: String,
    pub dest: String,
    pub asset_name: String,
    pub asset_size: u64,
    pub digest_hex: Option<String>,
}

/// The first `.dmg` asset of a release.
pub open spec fn first_dmg(assets: Seq<AssetInfo>, i: int) -> bool {
    0 <= i < assets.len() && is_dmg(assets[i].name@) && forall|j: int|
        0 <= j < i ==> !is_dmg(#[trigger] assets[j].name@)
}

/// `p` fetches asset `a` into the cache directory and checks `digest`.
pub open spec fn plan_matches(
    p: InstallPlan,
    a: AssetInfo,
    cache_dir: Seq<char>,
    digest: Option<Seq<char>>,
) -> bool {
    &&& p.url@ == a.browser_download_url@
    &&& p.dest@ == joined(cache_dir, a.name@)
    &&& p.asset_name@ == a.name@
    &&& p.asset_size == a.size
    &&& match (p.digest_hex, digest) {
        (Some(h), Some(d)) => h@ == d,
        (None, None) => true,
        _ => false,
    }
}

/// Plan an install from a release and the cache directory: the first
/// `.dmg` asset, its path in the cache, and its digest (which must be a
/// SHA-256 one when present). Fails before anything is downloaded when there
/// is no `.dmg` asset or the digest names another algorithm.
pub fn prepare_install_plan(release: &ReleaseInfo, cache_dir: &str) -> (r: Result<
    InstallPlan,
    ReleaseError,
>)
    ensures
        (forall|j: int| 0 <= j < release.assets@.len() ==> !is_dmg(
            #[trigger] release.assets@[j].name@,
        )) ==> r == Err::<InstallPlan, ReleaseError>(ReleaseError::NoDmgAsset),
        forall|i: int|
            #![trigger first_dmg(release.assets@, i)]
            first_dmg(release.assets@, i) ==> {
                let a = release.assets@[i];
                match a.digest {
                    Some(d) => if has_prefix(d@, sha256_prefix()) {
                        (r matches Ok(p) && plan_matches(
                            p,
                            a,
                            cache_dir@,
                            Some(d@.subrange(7, d@.len() as int)),
                        ))
                    } else {
                        (r matches Err(ReleaseError::UnsupportedDigest(t)) && t@ == d@)
                    },
                    None => (r matches Ok(p) && plan_matches(p, a, cache_dir@, None)),
                }
            },
{
    let asset = match pick_dmg_asset(release.assets.as_slice()) {
        Ok(a) => a,
        Err(e) => return Err(e),
    };
    proof {
        let i0 = choose|i: int|
            0 <= i < release.assets@.len() && release.assets@[i] == *asset && is_dmg(
                release.assets@[i].name@,
            ) && forall|j: int| 0 <= j < i ==> !is_dmg(#[trigger] release.assets@[j].name@);
        assert forall|i: int| #[trigger] first_dmg(release.assets@, i) implies i == i0 by {
            if i < i0 {
                assert(!is_dmg(release.assets@[i].name@));
            } else if i0 < i {
                assert(!is_dmg(release.assets@[i0].name@));
            }
        }
        reveal_strlit("sha256:");
    }
    let name = chars_of(asset.name.as_str());
    let dest = join_path(cache_dir, &name);
    let digest_hex = match &asset.digest {
        Some(d) => match parse_digest(d.as_str()) {
            Ok(h) => Some(h),
            Err(e) => return Err(e),
        },
        None => None,
    };
    Ok(InstallPlan {
        url: string_of(&chars_of(asset.browser_download_url.as_str())),
        dest,
        asset_name: string_of(&name),
        asset_size: asset.size,
        digest_hex,
    })
}

/// Monday to Friday.
pub open spec fn weekdays() -> DaysOfWeek {
    DaysOfWeek { mon: true, tue: true, wed: true, thu: true, fri: true, sat: false, sun: false }
}

/// Saturday and Sunday.
pub open spec fn weekend() -> DaysOfWeek {
    DaysOfWeek { mon: false, tue: false, wed: false, thu: false, fri: false, sat: true, sun: true }
}

/// A compact description of a set of days: `daily`, `Mon-Fri`, `weekends`,
/// or the three-letter names, Monday first, separated by `, `.
pub open spec fn days_summary(d: DaysOfWeek) -> Seq<char> {
    if d == every_day() {
        "daily"@
    } else if d == weekdays() {
        "Mon-Fri"@
    } else if d == weekend() {
        "weekends"@
    } else {
        join_with(d.names(), ", "@)
    }
}

/// Describe a set of days compactly.
pub fn day_summary(days: DaysOfWeek) -> (r: String)
    ensures
        r@ == days_summary(days),
{
    if days == DaysOfWeek::all() {
        return string_of(&chars_of("daily"));
    }
    let wd = DaysOfWeek { mon: true, tue: true, wed: true, thu: true, fri: true, sat: false, sun: false };
    if days == wd {
        return string_of(&chars_of("Mon-Fri"));
    }
    let we = DaysOfWeek { mon: false, tue: false, wed: false, thu: false, fri: false, sat: true, sun: true };
    if days == we {
        return string_of(&chars_of("weekends"));
    }
    let names = days.names_list();
    assert(names@.map_values(|p: Vec<char>| p@) =~= days.names());
    string_of(&join_chars(&names, ", "))
}

/// `HH:MM-HH:MM (<days>)`.
pub open spec fn schedule_inline(s: Schedule) -> Seq<char> {
    hh_mm(s.start) + "-"@ + hh_mm(s.end) + " ("@ + days_summary(s.days) + ")"@
}

/// One-line rendering of a schedule.
pub fn format_schedule_inline(s: &Schedule) -> (r: String)
    ensures
        r@ == schedule_inline(*s),
{
    let out = schedule_inline_chars(s);
    string_of(&out)
}

fn schedule_inline_chars(s: &Schedule) -> (r: Vec<char>)
    ensures
        r@ == schedule_inline(*s),
{
    let mut out = s.start.format_hh_mm();
    push_lit(&mut out, "-");
    push_chars(&mut out, &s.end.format_hh_mm());
    push_lit(&mut out, " (");
    push_lit(&mut out, day_summary(s.days).as_str());
    push_lit(&mut out, ")");
    out
}

/// The confirmation after `schedule set`; when the toggle was off (and the
/// command switched it on), it says so.
pub open spec fn set_confirmation(s: Schedule, was_off: bool) -> Seq<char> {
    "Schedule: "@ + schedule_inline(s) + if was_off {
        "; openlid is now ON"@
    } else {
        Seq::empty()
    }
}

/// The confirmation after `schedule set`.
pub fn format_schedule_set_confirmation(sched: &Schedule, was_off: bool) -> (r: String)
    ensures
        r@ == set_confirmation(*sched, was_off),
{
    let mut out: Vec<char> = Vec::new();
    push_lit(&mut out, "Schedule: ");
    push_chars(&mut out, &schedule_inline_chars(sched));
    if was_off {
        push_lit(&mut out, "; openlid is now ON");
    }
    assert(out@ =~= set_confirmation(*sched, was_off));
    string_of(&out)
}

/// The text of `schedule show`.
pub open spec fn show_text(s: Option<Schedule>) -> Seq<char> {
    match s {
        Some(x) => "Schedule: "@ + schedule_inline(x),
        None => "No schedule set."@,
    }
}

/// The text of `schedule show`: the schedule, or an explicit "not set".
pub fn format_schedule_show_text(sched: Option<&Schedule>) -> (r: String)
    ensures
        r@ == show_text(
            match sched {
                Some(s) => Some(*s),
                None => None,
            },
        ),
{
    match sched {
        Some(s) => {
            let mut out: Vec<char> = Vec::new();
            push_lit(&mut out, "Schedule: ");
            push_chars(&mut out, &schedule_inline_chars(s));
            string_of(&out)
        },
        None => string_of(&chars_of("No schedule set.")),
    }
}

/// Reading comma-separated day tokens: trimmed, empty ones skipped,
/// case-insensitive three-letter names. The result is the set and whether
/// any day was named, or the first unknown token (lower-cased).
pub open spec fn csv_days(tokens: Seq<Seq<char>>) -> Result<(DaysOfWeek, bool), Seq<char>>
    decreases tokens.len(),
{
    if tokens.len() == 0 {
        Ok((no_days(), false))
    } else {
        match csv_days(tokens.drop_last()) {
            Err(e) => Err(e),
            Ok((set, saw)) => {
                let t = trim(tokens.last());
                if t.len() == 0 {
                    Ok((set, saw))
                } else {
                    match day_with_lower_name(lower(t)) {
                        Some(d) => Ok((set.with_day(d), true)),
                        None => Err(lower(t)),
                    }
                }
            },
        }
    }
}

/// The error for an unknown day token.
pub open spec fn unknown_day_message(t: Seq<char>) -> Seq<char> {
    "unknown day '"@ + t + "' (expected Mon, Tue, Wed, Thu, Fri, Sat, or Sun)"@
}

/// The error for a day list naming no day.
pub open spec fn no_day_message() -> Seq<char> {
    "at least one day required (e.g. --days Mon,Tue,Wed,Thu,Fri)"@
}

/// What `--days` text means: the named days, or the error.
pub open spec fn days_csv_result(s: Seq<char>) -> Result<DaysOfWeek, Seq<char>> {
    match csv_days(split_on(s, ',')) {
        Err(t) => Err(unknown_day_message(t)),
        Ok((d, saw)) => if saw {
            Ok(d)
        } else {
            Err(no_day_message())
        },
    }
}

proof fn lemma_csv_prefix_error(tokens: Seq<Seq<char>>, k: int)
    requires
        0 <= k <= tokens.len(),
        csv_days(tokens.take(k)) is Err,
    ensures
        csv_days(tokens) == csv_days(tokens.take(k)),
    decreases tokens.len() - k,
{
    if k < tokens.len() {
        assert(tokens.take(k + 1).drop_last() =~= tokens.take(k));
        lemma_csv_prefix_error(tokens, k + 1);
    } else {
        assert(tokens.take(k) =~= tokens);
    }
}

/// Read a comma-separated list of day names (`Mon,tue, WED`): case does not
/// matter, white space around names is ignored, empty entries are skipped;
/// an unknown name, or no name at all, is an error.
pub fn parse_days_csv(s: &str) -> (r: Result<DaysOfWeek, String>)
    ensures
        match r {
            Ok(d) => days_csv_result(s@) == Ok::<DaysOfWeek, Seq<char>>(d),
            Err(m) => days_csv_result(s@) == Err::<DaysOfWeek, Seq<char>>(m@),
        },
{
    let text = chars_of(s);
    let tokens = split_chars(&text, ',');
    let ghost all = split_on(s@, ',');
    let mut days = DaysOfWeek::empty();
    let mut saw = false;
    let mut i: usize = 0;
    assert(all.take(0) =~= Seq::<Seq<char>>::empty());
    while i < tokens.len()
        invariant
            all == split_on(s@, ','),
            tokens@.len() == all.len(),
            forall|j: int| 0 <= j < tokens@.len() ==> #[trigger] tokens@[j]@ == all[j],
            i <= tokens.len(),
            csv_days(all.take(i as int)) == Ok::<(DaysOfWeek, bool), Seq<char>>((days, saw)),
        decreases tokens.len() - i,
    {
        assert(all.take(i + 1).drop_last() =~= all.take(i as int));
        assert(all.take(i + 1).last() == tokens@[i as int]@);
        let t = trim_chars(&tokens[i]);
        if t.len() > 0 {
            let l = lower_chars(&t);
            match Weekday::from_lower_name(&l) {
                Some(d) => {
                    days.insert(d);
                    saw = true;
                },
                None => {
                    proof {
                        lemma_csv_prefix_error(all, i + 1);
                    }
                    let mut m: Vec<char> = Vec::new();
                    push_lit(&mut m, "unknown day '");
                    push_chars(&mut m, &l);
                    push_lit(&mut m, "' (expected Mon, Tue, Wed, Thu, Fri, Sat, or Sun)");
                    assert(m@ =~= unknown_day_message(l@));
                    return Err(string_of(&m));
                },
            }
        }
        i = i + 1;
    }
    assert(all.take(all.len() as int) =~= all);
    if !saw {
        return Err(string_of(&chars_of("at least one day required (e.g. --days Mon,Tue,Wed,Thu,Fri)")));
    }
    Ok(days)
}

/// The error for an empty window.
pub open spec fn empty_window_message() -> Seq<char> {
    "schedule window must be non-empty (--from must differ from --to)"@
}

/// A schedule from already-read times and the optional `--days` text: the
/// window must not be empty; without `--days` every day is included.
pub open spec fn schedule_of(start: ClockTime, end: ClockTime, days: Option<Seq<char>>) -> Result<
    Schedule,
    Seq<char>,
> {
    if start == end {
        Err(empty_window_message())
    } else {
        match days {
            None => Ok(Schedule { days: every_day(), start, end }),
            Some(t) => match days_csv_result(t) {
                Ok(d) => Ok(Schedule { days: d, start, end }),
                Err(m) => Err(m),
            },
        }
    }
}

/// Build a schedule from its two times and the optional `--days` text.
/// Start after end is allowed: the window then crosses midnight.
pub fn schedule_from_times(start: ClockTime, end: ClockTime, days: Option<&str>) -> (r: Result<
    Schedule,
    String,
>)
    ensures
        match r {
            Ok(x) => schedule_of(start, end, opt_view(days)) == Ok::<Schedule, Seq<char>>(x),
            Err(m) => schedule_of(start, end, opt_view(days)) == Err::<Schedule, Seq<char>>(m@),
        },
{
    if start.same_as(&end) {
        return Err(string_of(&chars_of("schedule window must be non-empty (--from must differ from --to)")));
    }
    let d = match days {
        Some(t) => match parse_days_csv(t) {
            Ok(d) => d,
            Err(m) => return Err(m),
        },
        None => DaysOfWeek::all(),
    };
    Ok(Schedule { days: d, start, end })
}

/// The text of an optional string.
pub open spec fn opt_view(o: Option<&str>) -> Option<Seq<char>> {
    match o {
        Some(t) => Some(t@),
        None => None,
    }
}

/// The error for an unreadable `--from`.
pub open spec fn bad_from_message() -> Seq<char> {
    "expected HH:MM for --from"@
}

/// The error for an unreadable `--to`.
pub open spec fn bad_to_message() -> Seq<char> {
    "expected HH:MM for --to"@
}

/// The schedule (or error) for raw `--from`, `--to` and `--days` texts,
/// with the times as chrono reads them (minutes since midnight).
pub open spec fn parsed_schedule(from: Seq<char>, to: Seq<char>, days: Option<Seq<char>>) -> Result<
    Schedule,
    Seq<char>,
> {
    match chrono_hh_mm(from) {
        None => Err(bad_from_message()),
        Some(a) => match chrono_hh_mm(to) {
            None => Err(bad_to_message()),
            Some(b) => schedule_of(
                ClockTime { secs: (a * 60) as u32, nanos: 0 },
                ClockTime { secs: (b * 60) as u32, nanos: 0 },
                days,
            ),
        },
    }
}

/// Build a schedule from the raw `--from`, `--to` and `--days` texts. The
/// times are read by chrono as `HH:MM`.
pub fn parse_schedule(from: &str, to: &str, days: Option<&str>) -> (r: Result<Schedule, String>)
    ensures
        match r {
            Ok(x) => parsed_schedule(from@, to@, opt_view(days)) == Ok::<Schedule, Seq<char>>(x),
            Err(m) => parsed_schedule(from@, to@, opt_view(days)) == Err::<Schedule, Seq<char>>(
                m@,
            ),
        },
{
    let start = match parse_hh_mm(from) {
        Ok(t) => t,
        Err(_) => return Err(string_of(&chars_of("expected HH:MM for --from"))),
    };
    let end = match parse_hh_mm(to) {
        Ok(t) => t,
        Err(_) => return Err(string_of(&chars_of("expected HH:MM for --to"))),
    };
    schedule_from_times(start, end, days)
}

/// How the lid is shown in `status`.
pub open spec fn lid_text(l: LidState) -> Seq<char> {
    match l {
        LidState::Open => "Open"@,
        LidState::Closed => "Closed"@,
    }
}

/// How the power source is shown in `status`.
pub open spec fn power_text(p: PowerSource) -> Seq<char> {
    match p {
        PowerSource::Ac => "Ac"@,
        PowerSource::Battery { percent } => "Battery { percent: "@ + decimal(percent as nat)
            + " }"@,
    }
}

/// The first line of `status`: off; on and preventing now (with the
/// expiry, if any); or on but held back by a rule.
pub open spec fn state_label(s: Snapshot) -> Seq<char> {
    if !s.enabled {
        "OFF"@
    } else if s.preventing_sleep_now {
        match s.until {
            Some(t) => "ON until "@ + hh_mm(t.time) + " (preventing sleep now)"@,
            None => "ON (preventing sleep now)"@,
        }
    } else {
        "ON (armed, idle)"@
    }
}

/// The text of `status`: state, lid and power lines, then the battery
/// threshold and the schedule when set.
pub open spec fn status_text(s: Snapshot) -> Seq<char> {
    "Sleep prevention: "@ + state_label(s) + "\n"@ + "Lid:              "@ + lid_text(s.lid)
        + "\n"@ + "Power:            "@ + power_text(s.power) + "\n"@ + status_tail(s)
}

fn push_state_label(out: &mut Vec<char>, s: &Snapshot)
    ensures
        final(out)@ == old(out)@ + state_label(*s),
{
    if !s.enabled {
        push_lit(out, "OFF");
    } else if s.preventing_sleep_now {
        match &s.until {
            Some(t) => {
                push_lit(out, "ON until ");
                push_chars(out, &t.time.format_hh_mm());
                push_lit(out, " (preventing sleep now)");
            },
            None => push_lit(out, "ON (preventing sleep now)"),
        }
    } else {
        push_lit(out, "ON (armed, idle)");
    }
    assert(final(out)@ =~= old(out)@ + state_label(*s));
}

fn push_power_text(out: &mut Vec<char>, p: PowerSource)
    ensures
        final(out)@ == old(out)@ + power_text(p),
{
    match p {
        PowerSource::Ac => push_lit(out, "Ac"),
        PowerSource::Battery { percent } => {
            push_lit(out, "Battery { percent: ");
            push_decimal(out, percent as u64);
            push_lit(out, " }");
        },
    }
    assert(final(out)@ =~= old(out)@ + power_text(p));
}

/// The optional lines of `status`.
pub open spec fn status_tail(s: Snapshot) -> Seq<char> {
    let threshold = match s.battery_threshold_pct {
        Some(p) => "Auto-off below:   "@ + decimal(p as nat) + "% battery\n"@,
        None => Seq::empty(),
    };
    let schedule = match s.modifiers.schedule {
        Some(x) => "Schedule:         "@ + schedule_inline(x) + "\n"@,
        None => Seq::empty(),
    };
    threshold + schedule
}

fn push_status_tail(out: &mut Vec<char>, s: &Snapshot)
    ensures
        final(out)@ == old(out)@ + status_tail(*s),
{
    let ghost start = out@;
    match s.battery_threshold_pct {
        Some(p) => {
            push_lit(out, "Auto-off below:   ");
            push_decimal(out, p as u64);
            push_lit(out, "% battery\n");
        },
        None => {},
    }
    let ghost mid = out@;
    match &s.modifiers.schedule {
        Some(x) => {
            push_lit(out, "Schedule:         ");
            push_chars(out, &schedule_inline_chars(x));
            push_lit(out, "\n");
        },
        None => {},
    }
    assert(final(out)@ =~= old(out)@ + status_tail(*s));
}

/// Render a snapshot for `status`.
pub fn format_status_human(s: &Snapshot) -> (r: String)
    ensures
        r@ == status_text(*s),
{
    let mut out: Vec<char> = Vec::new();
    push_lit(&mut out, "Sleep prevention: ");
    push_state_label(&mut out, s);
    push_lit(&mut out, "\n");
    push_lit(&mut out, "Lid:              ");
    match s.lid {
        LidState::Open => push_lit(&mut out, "Open"),
        LidState::Closed => push_lit(&mut out, "Closed"),
    }
    push_lit(&mut out, "\n");
    push_lit(&mut out, "Power:            ");
    push_power_text(&mut out, s.power);
    push_lit(&mut out, "\n");
    push_status_tail(&mut out, s);
    assert(out@ =~= status_text(*s));
    string_of(&out)
}

} // verus!
