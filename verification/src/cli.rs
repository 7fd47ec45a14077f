//! The command-line grammar:
//!
//! ```text
//! openlid (menubar | helper | on | off)
//! openlid status [--json]
//! openlid config (show | path | edit)
//! openlid schedule set --from HH:MM --to HH:MM [--days LIST]
//! openlid schedule clear
//! openlid schedule show [--json]
//! openlid update [--check] [--yes] [--json]
//! ```
//!
//! Options taking a value accept `--opt VALUE` and `--opt=VALUE`; a separate
//! value must not start with `-`. No option may be given twice. `-h`,
//! `--help` (and the word `help` where a subcommand is expected) ask for
//! help; `-V` and `--version` at the top ask for the version.

use vstd::prelude::*;
use crate::text::{chars_of, eq_lit, starts_with_lit, chars_from, string_of, has_prefix};

verus! {

/// `config` subcommands.
#[derive(Debug, Clone, Copy, PartialEq, Eq, Structural)]
pub enum ConfigArg {
    Show,
    Path,
    Edit,
}

/// `schedule` subcommands.
#[derive(Debug, Clone, PartialEq, Eq)]
pub enum ScheduleArg {
    /// Set the recurring window. `days` is the comma-separated day list, if
    /// given.
    SetWindow { from: String, to: String, days: Option<String> },
    /// Remove the schedule.
    Clear,
    /// Print the current schedule.
    Show { json: bool },
}

/// Flags of `update`.
#[derive(Debug, Clone, Copy, PartialEq, Eq, Structural)]
pub struct UpdateArg {
    pub check: bool,
    pub yes: bool,
    pub json: bool,
}

/// A parsed command.
#[derive(Debug, Clone, PartialEq, Eq)]
pub enum Command {
    Menubar,
    Helper,
    On,
    Off,
    Status { json: bool },
    Config(ConfigArg),
    Schedule(ScheduleArg),
    Update(UpdateArg),
}

/// A parsed command line.
#[derive(Debug, Clone, PartialEq, Eq)]
pub struct Cli {
    pub command: Command,
}

/// Why a command line was not accepted (or asked for help or the version).
#[derive(Debug, Clone, Copy, PartialEq, Eq, Structural)]
pub enum CliErrorKind {
    MissingSubcommand,
    HelpRequested,
    VersionRequested,
    UnknownSubcommand,
    UnexpectedArgument,
    MissingValue,
    MissingRequired,
    DuplicateArgument,
}

/// A rejected command line: the kind of problem and the argument at fault
/// (empty when there is none).
#[derive(Debug, Clone, PartialEq, Eq)]
pub struct CliError {
    pub kind: CliErrorKind,
    pub arg: String,
}

/// `schedule` subcommands with their texts as character sequences.
pub enum ScheduleArgV {
    SetWindow { from: Seq<char>, to: Seq<char>, days: Option<Seq<char>> },
    Clear,
    Show { json: bool },
}

/// A command with its texts as character sequences.
pub enum CommandV {
    Menubar,
    Helper,
    On,
    Off,
    Status { json: bool },
    Config(ConfigArg),
    Schedule(ScheduleArgV),
    Update(UpdateArg),
}

/// The values given so far to `schedule set`.
pub struct SetAcc {
    pub from: Option<Seq<char>>,
    pub to: Option<Seq<char>>,
    pub days: Option<Seq<char>>,
}

/// A rejection: its kind and the argument at fault.
pub type Rejection = (CliErrorKind, Seq<char>);

pub open spec fn opt_view(o: Option<String>) -> Option<Seq<char>> {
    match o {
        Some(s) => Some(s@),
        None => None,
    }
}

pub open spec fn command_view(c: Command) -> CommandV {
    match c {
        Command::Menubar => CommandV::Menubar,
        Command::Helper => CommandV::Helper,
        Command::On => CommandV::On,
        Command::Off => CommandV::Off,
        Command::Status { json } => CommandV::Status { json },
        Command::Config(a) => CommandV::Config(a),
        Command::Schedule(ScheduleArg::SetWindow { from, to, days }) => CommandV::Schedule(
            ScheduleArgV::SetWindow { from: from@, to: to@, days: opt_view(days) },
        ),
        Command::Schedule(ScheduleArg::Clear) => CommandV::Schedule(ScheduleArgV::Clear),
        Command::Schedule(ScheduleArg::Show { json }) => CommandV::Schedule(
            ScheduleArgV::Show { json },
        ),
        Command::Update(u) => CommandV::Update(u),
    }
}

/// A request for help.
pub open spec fn is_help(t: Seq<char>) -> bool {
    t == "-h"@ || t == "--help"@
}

/// An argument that looks like an option.
pub open spec fn dashed(t: Seq<char>) -> bool {
    t.len() > 0 && t[0] == '-'
}

/// The rejection for an argument that is neither expected nor a request
/// for help.
pub open spec fn stray(t: Seq<char>) -> Rejection {
    if is_help(t) {
        (CliErrorKind::HelpRequested, t)
    } else {
        (CliErrorKind::UnexpectedArgument, t)
    }
}

/// Nothing may follow position `i`.
pub open spec fn no_more(ts: Seq<Seq<char>>, i: int) -> Result<(), Rejection> {
    if i >= ts.len() {
        Ok(())
    } else {
        Err(stray(ts[i]))
    }
}

/// Reading an optional `--json` flag from position `i` on.
pub open spec fn json_flag(ts: Seq<Seq<char>>, i: int, seen: bool) -> Result<bool, Rejection>
    decreases ts.len() - i,
{
    if i >= ts.len() {
        Ok(seen)
    } else if ts[i] == "--json"@ {
        if seen {
            Err((CliErrorKind::DuplicateArgument, ts[i]))
        } else {
            json_flag(ts, i + 1, true)
        }
    } else {
        Err(stray(ts[i]))
    }
}

/// Reading the flags of `update` from position `i` on.
pub open spec fn update_flags(ts: Seq<Seq<char>>, i: int, acc: UpdateArg) -> Result<UpdateArg, Rejection>
    decreases ts.len() - i,
{
    if i >= ts.len() {
        Ok(acc)
    } else if ts[i] == "--check"@ {
        if acc.check {
            Err((CliErrorKind::DuplicateArgument, ts[i]))
        } else {
            update_flags(ts, i + 1, UpdateArg { check: true, ..acc })
        }
    } else if ts[i] == "--yes"@ {
        if acc.yes {
            Err((CliErrorKind::DuplicateArgument, ts[i]))
        } else {
            update_flags(ts, i + 1, UpdateArg { yes: true, ..acc })
        }
    } else if ts[i] == "--json"@ {
        if acc.json {
            Err((CliErrorKind::DuplicateArgument, ts[i]))
        } else {
            update_flags(ts, i + 1, UpdateArg { json: true, ..acc })
        }
    } else {
        Err(stray(ts[i]))
    }
}

/// Which value option `t` names exactly: 0 `--from`, 1 `--to`, 2 `--days`,
/// otherwise -1.
pub open spec fn option_slot(t: Seq<char>) -> int {
    if t == "--from"@ {
        0
    } else if t == "--to"@ {
        1
    } else if t == "--days"@ {
        2
    } else {
        -1
    }
}

/// Which `--opt=` form `t` starts with, numbered as in `option_slot`.
pub open spec fn inline_slot(t: Seq<char>) -> int {
    if has_prefix(t, "--from="@) {
        0
    } else if has_prefix(t, "--to="@) {
        1
    } else if has_prefix(t, "--days="@) {
        2
    } else {
        -1
    }
}

/// The `--opt=` prefix of slot `k`.
pub open spec fn inline_prefix(k: int) -> Seq<char> {
    if k == 0 {
        "--from="@
    } else if k == 1 {
        "--to="@
    } else {
        "--days="@
    }
}

/// Store value `v` in slot `k`; `None` when the slot is already taken.
pub open spec fn put(acc: SetAcc, k: int, v: Seq<char>) -> Option<SetAcc> {
    if k == 0 {
        if acc.from is Some {
            None
        } else {
            Some(SetAcc { from: Some(v), ..acc })
        }
    } else if k == 1 {
        if acc.to is Some {
            None
        } else {
            Some(SetAcc { to: Some(v), ..acc })
        }
    } else {
        if acc.days is Some {
            None
        } else {
            Some(SetAcc { days: Some(v), ..acc })
        }
    }
}

/// Reading the options of `schedule set` from position `i` on.
pub open spec fn set_opts(ts: Seq<Seq<char>>, i: int, acc: SetAcc) -> Result<SetAcc, Rejection>
    decreases ts.len() - i,
{
    if i >= ts.len() {
        Ok(acc)
    } else {
        let t = ts[i];
        let k = option_slot(t);
        let j = inline_slot(t);
        if k >= 0 {
            if i + 1 >= ts.len() || dashed(ts[i + 1]) {
                Err((CliErrorKind::MissingValue, t))
            } else {
                match put(acc, k, ts[i + 1]) {
                    None => Err((CliErrorKind::DuplicateArgument, t)),
                    Some(a) => set_opts(ts, i + 2, a),
                }
            }
        } else if j >= 0 {
            match put(acc, j, t.subrange(inline_prefix(j).len() as int, t.len() as int)) {
                None => Err((CliErrorKind::DuplicateArgument, t)),
                Some(a) => set_opts(ts, i + 1, a),
            }
        } else {
            Err(stray(t))
        }
    }
}

/// `schedule set` after its options: both ends of the window are required.
pub open spec fn set_command(ts: Seq<Seq<char>>, i: int) -> Result<CommandV, Rejection> {
    match set_opts(ts, i, SetAcc { from: None, to: None, days: None }) {
        Err(e) => Err(e),
        Ok(acc) => match (acc.from, acc.to) {
            (Some(f), Some(t)) => Ok(
                CommandV::Schedule(ScheduleArgV::SetWindow { from: f, to: t, days: acc.days }),
            ),
            (None, _) => Err((CliErrorKind::MissingRequired, "--from"@)),
            (_, None) => Err((CliErrorKind::MissingRequired, "--to"@)),
        },
    }
}

/// A missing or unknown subcommand at position `i`.
pub open spec fn bad_subcommand(ts: Seq<Seq<char>>, i: int) -> Rejection {
    if i >= ts.len() {
        (CliErrorKind::MissingSubcommand, Seq::empty())
    } else if is_help(ts[i]) || ts[i] == "help"@ {
        (CliErrorKind::HelpRequested, ts[i])
    } else if dashed(ts[i]) {
        (CliErrorKind::UnexpectedArgument, ts[i])
    } else {
        (CliErrorKind::UnknownSubcommand, ts[i])
    }
}

/// `config` with its subcommand at position `i`.
pub open spec fn config_command(ts: Seq<Seq<char>>, i: int) -> Result<CommandV, Rejection> {
    if i < ts.len() && ts[i] == "show"@ {
        match no_more(ts, i + 1) {
            Ok(_) => Ok(CommandV::Config(ConfigArg::Show)),
            Err(e) => Err(e),
        }
    } else if i < ts.len() && ts[i] == "path"@ {
        match no_more(ts, i + 1) {
            Ok(_) => Ok(CommandV::Config(ConfigArg::Path)),
            Err(e) => Err(e),
        }
    } else if i < ts.len() && ts[i] == "edit"@ {
        match no_more(ts, i + 1) {
            Ok(_) => Ok(CommandV::Config(ConfigArg::Edit)),
            Err(e) => Err(e),
        }
    } else {
        Err(bad_subcommand(ts, i))
    }
}

/// `schedule` with its subcommand at position `i`.
pub open spec fn schedule_command(ts: Seq<Seq<char>>, i: int) -> Result<CommandV, Rejection> {
    if i < ts.len() && ts[i] == "set"@ {
        set_command(ts, i + 1)
    } else if i < ts.len() && ts[i] == "clear"@ {
        match no_more(ts, i + 1) {
            Ok(_) => Ok(CommandV::Schedule(ScheduleArgV::Clear)),
            Err(e) => Err(e),
        }
    } else if i < ts.len() && ts[i] == "show"@ {
        match json_flag(ts, i + 1, false) {
            Ok(json) => Ok(CommandV::Schedule(ScheduleArgV::Show { json })),
            Err(e) => Err(e),
        }
    } else {
        Err(bad_subcommand(ts, i))
    }
}

/// A command with no arguments.
pub open spec fn bare(ts: Seq<Seq<char>>, c: CommandV) -> Result<CommandV, Rejection> {
    match no_more(ts, 2) {
        Ok(_) => Ok(c),
        Err(e) => Err(e),
    }
}

/// The meaning of a full argument list (`ts[0]` is the program name).
pub open spec fn parse_command(ts: Seq<Seq<char>>) -> Result<CommandV, Rejection> {
    if ts.len() < 2 {
        Err((CliErrorKind::MissingSubcommand, Seq::empty()))
    } else {
        let t = ts[1];
        if t == "-V"@ || t == "--version"@ {
            Err((CliErrorKind::VersionRequested, t))
        } else if t == "menubar"@ {
            bare(ts, CommandV::Menubar)
        } else if t == "helper"@ {
            bare(ts, CommandV::Helper)
        } else if t == "on"@ {
            bare(ts, CommandV::On)
        } else if t == "off"@ {
            bare(ts, CommandV::Off)
        } else if t == "status"@ {
            match json_flag(ts, 2, false) {
                Ok(json) => Ok(CommandV::Status { json }),
                Err(e) => Err(e),
            }
        } else if t == "config"@ {
            config_command(ts, 2)
        } else if t == "schedule"@ {
            schedule_command(ts, 2)
        } else if t == "update"@ {
            match update_flags(ts, 2, UpdateArg { check: false, yes: false, json: false }) {
                Ok(u) => Ok(CommandV::Update(u)),
                Err(e) => Err(e),
            }
        } else {
            Err(bad_subcommand(ts, 1))
        }
    }
}

/// The character sequences of a list of tokens.
pub open spec fn token_views(toks: Seq<Vec<char>>) -> Seq<Seq<char>> {
    toks.map_values(|v: Vec<char>| v@)
}

fn reject(kind: CliErrorKind, arg: &Vec<char>) -> (r: CliError)
    ensures
        r.kind == kind,
        r.arg@ == arg@,
{
    CliError { kind, arg: string_of(arg) }
}

fn is_help_token(t: &Vec<char>) -> (r: bool)
    ensures
        r == is_help(t@),
{
    eq_lit(t, "-h") || eq_lit(t, "--help")
}

fn is_dashed(t: &Vec<char>) -> (r: bool)
    ensures
        r == dashed(t@),
{
    t.len() > 0 && t[0] == '-'
}

fn stray_error(t: &Vec<char>) -> (r: CliError)
    ensures
        (r.kind, r.arg@) == stray(t@),
{
    if is_help_token(t) {
        reject(CliErrorKind::HelpRequested, t)
    } else {
        reject(CliErrorKind::UnexpectedArgument, t)
    }
}

fn expect_end(toks: &Vec<Vec<char>>, i: usize) -> (r: Result<(), CliError>)
    ensures
        match r {
            Ok(_) => no_more(token_views(toks@), i as int) is Ok,
            Err(e) => no_more(token_views(toks@), i as int) == Err::<(), Rejection>((e.kind, e.arg@)),
        },
{
    if i >= toks.len() {
        Ok(())
    } else {
        Err(stray_error(&toks[i]))
    }
}

fn read_json_flag(toks: &Vec<Vec<char>>, start: usize) -> (r: Result<bool, CliError>)
    ensures
        match r {
            Ok(j) => json_flag(token_views(toks@), start as int, false) == Ok::<bool, Rejection>(j),
            Err(e) => json_flag(token_views(toks@), start as int, false) == Err::<bool, Rejection>(
                (e.kind, e.arg@),
            ),
        },
{
    let ghost ts = token_views(toks@);
    let mut seen = false;
    let mut i = start;
    while i < toks.len()
        invariant
            ts == token_views(toks@),
            json_flag(ts, start as int, false) == json_flag(ts, i as int, seen),
        decreases toks.len() - i,
    {
        let t = &toks[i];
        if eq_lit(t, "--json") {
            if seen {
                return Err(reject(CliErrorKind::DuplicateArgument, t));
            }
            seen = true;
        } else {
            return Err(stray_error(t));
        }
        i = i + 1;
    }
    Ok(seen)
}

fn read_update_flags(toks: &Vec<Vec<char>>) -> (r: Result<UpdateArg, CliError>)
    ensures
        match r {
            Ok(u) => update_flags(
                token_views(toks@),
                2,
                UpdateArg { check: false, yes: false, json: false },
            ) == Ok::<UpdateArg, Rejection>(u),
            Err(e) => update_flags(
                token_views(toks@),
                2,
                UpdateArg { check: false, yes: false, json: false },
            ) == Err::<UpdateArg, Rejection>((e.kind, e.arg@)),
        },
{
    let ghost ts = token_views(toks@);
    let mut acc = UpdateArg { check: false, yes: false, json: false };
    let mut i: usize = 2;
    while i < toks.len()
        invariant
            ts == token_views(toks@),
            update_flags(ts, 2, UpdateArg { check: false, yes: false, json: false })
                == update_flags(ts, i as int, acc),
        decreases toks.len() - i,
    {
        let t = &toks[i];
        if eq_lit(t, "--check") {
            if acc.check {
                return Err(reject(CliErrorKind::DuplicateArgument, t));
            }
            acc.check = true;
        } else if eq_lit(t, "--yes") {
            if acc.yes {
                return Err(reject(CliErrorKind::DuplicateArgument, t));
            }
            acc.yes = true;
        } else if eq_lit(t, "--json") {
            if acc.json {
                return Err(reject(CliErrorKind::DuplicateArgument, t));
            }
            acc.json = true;
        } else {
            return Err(stray_error(t));
        }
        i = i + 1;
    }
    Ok(acc)
}

fn slot_of(t: &Vec<char>) -> (r: i8)
    ensures
        r == option_slot(t@),
{
    if eq_lit(t, "--from") {
        0
    } else if eq_lit(t, "--to") {
        1
    } else if eq_lit(t, "--days") {
        2
    } else {
        -1
    }
}

fn inline_slot_of(t: &Vec<char>) -> (r: (i8, usize))
    ensures
        r.0 == inline_slot(t@),
        r.0 >= 0 ==> r.1 == inline_prefix(r.0 as int).len() && r.1 <= t@.len(),
{
    if starts_with_lit(t, "--from=") {
        let p = chars_of("--from=");
        (0, p.len())
    } else if starts_with_lit(t, "--to=") {
        let p = chars_of("--to=");
        (1, p.len())
    } else if starts_with_lit(t, "--days=") {
        let p = chars_of("--days=");
        (2, p.len())
    } else {
        (-1, 0)
    }
}

pub open spec fn acc_view(a: (Option<Vec<char>>, Option<Vec<char>>, Option<Vec<char>>)) -> SetAcc {
    SetAcc {
        from: match a.0 {
            Some(v) => Some(v@),
            None => None,
        },
        to: match a.1 {
            Some(v) => Some(v@),
            None => None,
        },
        days: match a.2 {
            Some(v) => Some(v@),
            None => None,
        },
    }
}

fn put_value(
    acc: &mut (Option<Vec<char>>, Option<Vec<char>>, Option<Vec<char>>),
    k: i8,
    v: Vec<char>,
) -> (r: bool)
    requires
        0 <= k <= 2,
    ensures
        r == put(acc_view(*old(acc)), k as int, v@) is Some,
        r ==> put(acc_view(*old(acc)), k as int, v@) == Some(acc_view(*final(acc))),
{
    if k == 0 {
        if acc.0.is_some() {
            return false;
        }
        acc.0 = Some(v);
    } else if k == 1 {
        if acc.1.is_some() {
            return false;
        }
        acc.1 = Some(v);
    } else {
        if acc.2.is_some() {
            return false;
        }
        acc.2 = Some(v);
    }
    true
}

fn read_set_command(toks: &Vec<Vec<char>>, start: usize) -> (r: Result<Command, CliError>)
    ensures
        match r {
            Ok(c) => set_command(token_views(toks@), start as int) == Ok::<CommandV, Rejection>(
                command_view(c),
            ),
            Err(e) => set_command(token_views(toks@), start as int) == Err::<CommandV, Rejection>(
                (e.kind, e.arg@),
            ),
        },
{
    let ghost ts = token_views(toks@);
    let mut acc: (Option<Vec<char>>, Option<Vec<char>>, Option<Vec<char>>) = (None, None, None);
    let mut i = start;
    assert(acc_view(acc) == SetAcc { from: None, to: None, days: None });
    while i < toks.len()
        invariant
            ts == token_views(toks@),
            set_opts(ts, start as int, SetAcc { from: None, to: None, days: None }) == set_opts(
                ts,
                i as int,
                acc_view(acc),
            ),
        decreases toks.len() - i,
    {
        let t = &toks[i];
        let k = slot_of(t);
        let (j, plen) = inline_slot_of(t);
        if k >= 0 {
            if i + 1 >= toks.len() || is_dashed(&toks[i + 1]) {
                return Err(reject(CliErrorKind::MissingValue, t));
            }
            let v = toks[i + 1].clone();
            if !put_value(&mut acc, k, v) {
                return Err(reject(CliErrorKind::DuplicateArgument, t));
            }
            i = i + 2;
        } else if j >= 0 {
            let v = chars_from(t, plen);
            if !put_value(&mut acc, j, v) {
                return Err(reject(CliErrorKind::DuplicateArgument, t));
            }
            i = i + 1;
        } else {
            return Err(stray_error(t));
        }
    }
    let (from, to, days) = acc;
    match (from, to) {
        (Some(f), Some(t)) => Ok(
            Command::Schedule(
                ScheduleArg::SetWindow {
                    from: string_of(&f),
                    to: string_of(&t),
                    days: match days {
                        Some(d) => Some(string_of(&d)),
                        None => None,
                    },
                },
            ),
        ),
        (None, _) => Err(reject(CliErrorKind::MissingRequired, &chars_of("--from"))),
        (_, None) => Err(reject(CliErrorKind::MissingRequired, &chars_of("--to"))),
    }
}

fn bad_subcommand_error(toks: &Vec<Vec<char>>, i: usize) -> (r: CliError)
    ensures
        (r.kind, r.arg@) == bad_subcommand(token_views(toks@), i as int),
{
    if i >= toks.len() {
        let e: Vec<char> = Vec::new();
        assert(e@ =~= Seq::<char>::empty());
        reject(CliErrorKind::MissingSubcommand, &e)
    } else if is_help_token(&toks[i]) || eq_lit(&toks[i], "help") {
        reject(CliErrorKind::HelpRequested, &toks[i])
    } else if is_dashed(&toks[i]) {
        reject(CliErrorKind::UnexpectedArgument, &toks[i])
    } else {
        reject(CliErrorKind::UnknownSubcommand, &toks[i])
    }
}

fn read_config_command(toks: &Vec<Vec<char>>) -> (r: Result<Command, CliError>)
    ensures
        match r {
            Ok(c) => config_command(token_views(toks@), 2) == Ok::<CommandV, Rejection>(
                command_view(c),
            ),
            Err(e) => config_command(token_views(toks@), 2) == Err::<CommandV, Rejection>(
                (e.kind, e.arg@),
            ),
        },
{
    if toks.len() > 2 && eq_lit(&toks[2], "show") {
        match expect_end(toks, 3) {
            Ok(()) => Ok(Command::Config(ConfigArg::Show)),
            Err(e) => Err(e),
        }
    } else if toks.len() > 2 && eq_lit(&toks[2], "path") {
        match expect_end(toks, 3) {
            Ok(()) => Ok(Command::Config(ConfigArg::Path)),
            Err(e) => Err(e),
        }
    } else if toks.len() > 2 && eq_lit(&toks[2], "edit") {
        match expect_end(toks, 3) {
            Ok(()) => Ok(Command::Config(ConfigArg::Edit)),
            Err(e) => Err(e),
        }
    } else {
        Err(bad_subcommand_error(toks, 2))
    }
}

fn read_schedule_command(toks: &Vec<Vec<char>>) -> (r: Result<Command, CliError>)
    ensures
        match r {
            Ok(c) => schedule_command(token_views(toks@), 2) == Ok::<CommandV, Rejection>(
                command_view(c),
            ),
            Err(e) => schedule_command(token_views(toks@), 2) == Err::<CommandV, Rejection>(
                (e.kind, e.arg@),
            ),
        },
{
    if toks.len() > 2 && eq_lit(&toks[2], "set") {
        read_set_command(toks, 3)
    } else if toks.len() > 2 && eq_lit(&toks[2], "clear") {
        match expect_end(toks, 3) {
            Ok(()) => Ok(Command::Schedule(ScheduleArg::Clear)),
            Err(e) => Err(e),
        }
    } else if toks.len() > 2 && eq_lit(&toks[2], "show") {
        match read_json_flag(toks, 3) {
            Ok(json) => Ok(Command::Schedule(ScheduleArg::Show { json })),
            Err(e) => Err(e),
        }
    } else {
        Err(bad_subcommand_error(toks, 2))
    }
}

fn read_bare(toks: &Vec<Vec<char>>, c: Command) -> (r: Result<Command, CliError>)
    requires
        toks@.len() >= 2,
    ensures
        match r {
            Ok(x) => bare(token_views(toks@), command_view(c)) == Ok::<CommandV, Rejection>(
                command_view(x),
            ),
            Err(e) => bare(token_views(toks@), command_view(c)) == Err::<CommandV, Rejection>(
                (e.kind, e.arg@),
            ),
        },
{
    match expect_end(toks, 2) {
        Ok(()) => Ok(c),
        Err(e) => Err(e),
    }
}

impl Cli {
    /// Parse a full argument list (the first element is the program name)
    /// according to the grammar above.
    pub fn try_parse_from(args: &[&str]) -> (r: Result<Cli, CliError>)
        ensures
            match r {
                Ok(c) => parse_command(args@.map_values(|s: &str| s@)) == Ok::<
                    CommandV,
                    Rejection,
                >(command_view(c.command)),
                Err(e) => parse_command(args@.map_values(|s: &str| s@)) == Err::<
                    CommandV,
                    Rejection,
                >((e.kind, e.arg@)),
            },
    {
        let mut toks: Vec<Vec<char>> = Vec::new();
        let mut k: usize = 0;
        while k < args.len()
            invariant
                k <= args@.len(),
                toks@.len() == k,
                forall|j: int| 0 <= j < k ==> #[trigger] toks@[j]@ == args@[j]@,
            decreases args.len() - k,
        {
            toks.push(chars_of(args[k]));
            k = k + 1;
        }
        assert(token_views(toks@) =~= args@.map_values(|s: &str| s@));
        let r = Cli::parse_tokens(&toks);
        match r {
            Ok(command) => Ok(Cli { command }),
            Err(e) => Err(e),
        }
    }

    fn parse_tokens(toks: &Vec<Vec<char>>) -> (r: Result<Command, CliError>)
        ensures
            match r {
                Ok(c) => parse_command(token_views(toks@)) == Ok::<CommandV, Rejection>(
                    command_view(c),
                ),
                Err(e) => parse_command(token_views(toks@)) == Err::<CommandV, Rejection>(
                    (e.kind, e.arg@),
                ),
            },
    {
        if toks.len() < 2 {
            let e: Vec<char> = Vec::new();
            assert(e@ =~= Seq::<char>::empty());
            return Err(reject(CliErrorKind::MissingSubcommand, &e));
        }
        let t = &toks[1];
        if eq_lit(t, "-V") || eq_lit(t, "--version") {
            Err(reject(CliErrorKind::VersionRequested, t))
        } else if eq_lit(t, "menubar") {
            read_bare(toks, Command::Menubar)
        } else if eq_lit(t, "helper") {
            read_bare(toks, Command::Helper)
        } else if eq_lit(t, "on") {
            read_bare(toks, Command::On)
        } else if eq_lit(t, "off") {
            read_bare(toks, Command::Off)
        } else if eq_lit(t, "status") {
            match read_json_flag(toks, 2) {
                Ok(json) => Ok(Command::Status { json }),
                Err(e) => Err(e),
            }
        } else if eq_lit(t, "config") {
            read_config_command(toks)
        } else if eq_lit(t, "schedule") {
            read_schedule_command(toks)
        } else if eq_lit(t, "update") {
            match read_update_flags(toks) {
                Ok(u) => Ok(Command::Update(u)),
                Err(e) => Err(e),
            }
        } else {
            Err(bad_subcommand_error(toks, 1))
        }
    }
}

/// The value options of `schedule set`.
pub open spec fn is_set_option(name: Seq<char>) -> bool {
    name == "--from"@ || name == "--to"@ || name == "--days"@
}

/// How an inline token `name=v` reads: as no option name by itself, as the
/// inline form of `name`, whose prefix is the name and `=`, leaving `v`.
proof fn lemma_inline_token(name: Seq<char>, v: Seq<char>)
    requires
        is_set_option(name),
    ensures
        option_slot(name) >= 0,
        option_slot(name + "="@ + v) == -1,
        inline_slot(name + "="@ + v) == option_slot(name),
        inline_prefix(option_slot(name)) == name + "="@,
        (name + "="@ + v).subrange(
            inline_prefix(option_slot(name)).len() as int,
            (name + "="@ + v).len() as int,
        ) == v,
        dashed(name + "="@ + v),
        dashed(name),
{
    reveal_strlit("--from");
    reveal_strlit("--to");
    reveal_strlit("--days");
    reveal_strlit("--from=");
    reveal_strlit("--to=");
    reveal_strlit("--days=");
    reveal_strlit("=");
    let tok = name + "="@ + v;
    let p = name + "="@;
    assert(tok.subrange(0, p.len() as int) =~= p);
    assert(tok.subrange(p.len() as int, tok.len() as int) =~= v);
    assert(tok[0] == '-');
    assert(tok[name.len() as int] == '=');
    if name == "--from"@ {
        assert(p =~= "--from="@);
        assert(tok[2] == 'f');
        assert(tok != "--to"@);
        assert(tok != "--days"@);
        assert(tok.len() > 6);
    } else if name == "--to"@ {
        assert(p =~= "--to="@);
        assert(tok[2] == 't');
        assert(tok != "--from"@);
        assert(tok != "--days"@);
        assert(tok.len() > 4);
        assert(!has_prefix(tok, "--from="@));
    } else {
        assert(p =~= "--days="@);
        assert(tok[2] == 'd');
        assert(tok != "--from"@);
        assert(tok != "--to"@);
        assert(tok.len() > 6);
        assert(!has_prefix(tok, "--from="@));
        assert(!has_prefix(tok, "--to="@));
    }
}

/// Reading the options of `schedule set` with a final `name=v` token gives
/// what the two tokens `name v` give, whenever either reading succeeds.
proof fn lemma_set_opts_inline(
    ts: Seq<Seq<char>>,
    name: Seq<char>,
    v: Seq<char>,
    i: int,
    acc: SetAcc,
)
    requires
        is_set_option(name),
        !dashed(v),
        0 <= i <= ts.len(),
    ensures
        ({
            let a = set_opts(ts.push(name + "="@ + v), i, acc);
            let b = set_opts(ts.push(name).push(v), i, acc);
            (a is Ok || b is Ok) ==> a == b
        }),
    decreases ts.len() - i,
{
    let ta = ts.push(name + "="@ + v);
    let tb = ts.push(name).push(v);
    lemma_inline_token(name, v);
    if i == ts.len() {
        assert(ta[i] == name + "="@ + v);
        assert(tb[i] == name);
        assert(tb[i + 1] == v);
        let k = option_slot(name);
        match put(acc, k, v) {
            None => {},
            Some(a2) => {
                assert(set_opts(ta, i + 1, a2) == Ok::<SetAcc, Rejection>(a2));
                assert(set_opts(tb, i + 2, a2) == Ok::<SetAcc, Rejection>(a2));
            },
        }
    } else {
        assert(ta[i] == ts[i]);
        assert(tb[i] == ts[i]);
        let t = ts[i];
        let k = option_slot(t);
        let j = inline_slot(t);
        if k >= 0 {
            if i + 1 < ts.len() {
                assert(ta[i + 1] == ts[i + 1]);
                assert(tb[i + 1] == ts[i + 1]);
                match put(acc, k, ts[i + 1]) {
                    None => {},
                    Some(a2) => {
                        lemma_set_opts_inline(ts, name, v, i + 2, a2);
                    },
                }
            } else {
                assert(ta[i + 1] == name + "="@ + v);
                assert(tb[i + 1] == name);
            }
        } else if j >= 0 {
            match put(acc, j, t.subrange(inline_prefix(j).len() as int, t.len() as int)) {
                None => {},
                Some(a2) => {
                    lemma_set_opts_inline(ts, name, v, i + 1, a2);
                },
            }
        }
    }
}

/// `schedule set` reads `--opt=VALUE` as it reads `--opt VALUE`: ending the
/// options with `--from=v`, `--to=v` or `--days=v` gives the same command as
/// ending them with the option and `v` as separate arguments (for a value
/// not starting with `-`), whenever either is accepted.
pub proof fn law_inline_option_value(ts: Seq<Seq<char>>, name: Seq<char>, v: Seq<char>)
    requires
        ts.len() >= 3,
        ts[1] == "schedule"@,
        ts[2] == "set"@,
        is_set_option(name),
        !dashed(v),
    ensures
        ({
            let a = parse_command(ts.push(name + "="@ + v));
            let b = parse_command(ts.push(name).push(v));
            (a is Ok || b is Ok) ==> a == b
        }),
{
    let ta = ts.push(name + "="@ + v);
    let tb = ts.push(name).push(v);
    assert(ta[1] == ts[1] && ta[2] == ts[2]);
    assert(tb[1] == ts[1] && tb[2] == ts[2]);
    reveal_strlit("schedule");
    reveal_strlit("set");
    reveal_strlit("-V");
    reveal_strlit("--version");
    reveal_strlit("menubar");
    reveal_strlit("helper");
    reveal_strlit("on");
    reveal_strlit("off");
    reveal_strlit("status");
    reveal_strlit("config");
    reveal_strlit("update");
    lemma_set_opts_inline(ts, name, v, 3, SetAcc { from: None, to: None, days: None });
}

} // verus!
