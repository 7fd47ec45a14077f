//! The detached installer script, the paths it is written to, and the
//! checksum comparison applied to a downloaded image.

use vstd::prelude::*;
use sha2::Digest;
use crate::days::lower_char;
use crate::text::{chars_of, decimal, push_decimal, string_of, push_lit, push_chars, has_prefix};

verus! {

/// The script up to the parent process id.
pub const SCRIPT_HEAD: &'static str = "#!/bin/sh
# Installs a downloaded OpenLid release over the existing bundle.
# Runs detached from the updater process, which must exit first.
set -u

PARENT_PID=\"";

/// The script between the parent process id and the image path.
pub const SCRIPT_AFTER_PID: &'static str = "\"
DMG_PATH=\"";

/// The script between the image path and the application path.
pub const SCRIPT_AFTER_DMG: &'static str = "\"
APP_PATH=\"";

/// The rest of the script.
pub const SCRIPT_TAIL: &'static str = "\"

OPENLID_CODE_REQUIREMENT='identifier \"io.openlid.app\" and anchor apple generic and certificate 1[field.1.2.840.113635.100.6.2.6] /* exists */ and certificate leaf[field.1.2.840.113635.100.6.1.13] /* exists */ and certificate leaf[subject.OU] = \"X5SZL4562S\"'
OPENLID_DMG_REQUIREMENT='anchor apple generic and certificate 1[field.1.2.840.113635.100.6.2.6] /* exists */ and certificate leaf[field.1.2.840.113635.100.6.1.13] /* exists */ and certificate leaf[subject.OU] = \"X5SZL4562S\"'
APP_EXEC_RE=\"$APP_PATH/Contents/MacOS/openlid([[:space:]]|$)\"
VOLUME_PATH=\"\"

log() {
    echo \"[openlid-installer] $(date '+%Y-%m-%d %H:%M:%S') $*\"
}

fail() {
    log \"error: $*\"
    if [ -n \"$VOLUME_PATH\" ]; then
        hdiutil detach \"$VOLUME_PATH\" -quiet >/dev/null 2>&1 || true
    fi
    exit 1
}

log \"waiting for the updater (pid $PARENT_PID) to exit\"
tries=0
while kill -0 \"$PARENT_PID\" 2>/dev/null; do
    tries=$((tries + 1))
    if [ \"$tries\" -ge 120 ]; then
        fail \"the updater did not exit\"
    fi
    sleep 0.5
done

log \"verifying the disk image signature\"
codesign --verify --strict -R=\"$OPENLID_DMG_REQUIREMENT\" \"$DMG_PATH\" || fail \"disk image signature check failed\"

log \"mounting the disk image\"
VOLUME_PATH=$(hdiutil attach -nobrowse -readonly -noautoopen \"$DMG_PATH\" | awk -F '\\t' '/\\/Volumes\\// { print $NF; exit }')
[ -n \"$VOLUME_PATH\" ] || fail \"could not mount the disk image\"

log \"verifying the bundle signature\"
codesign --verify --deep --strict -R=\"$OPENLID_CODE_REQUIREMENT\" \"$VOLUME_PATH/OpenLid.app\" || fail \"bundle signature check failed\"

log \"staging the new bundle\"
rm -rf \"${APP_PATH}.new\"
cp -R \"$VOLUME_PATH/OpenLid.app\" \"${APP_PATH}.new\" || fail \"could not stage the new bundle\"

log \"stopping the running menu bar app\"
pkill -TERM -f \"$APP_EXEC_RE\" 2>/dev/null || true
tries=0
while pgrep -f \"$APP_EXEC_RE\" >/dev/null 2>&1; do
    tries=$((tries + 1))
    if [ \"$tries\" -ge 40 ]; then
        pkill -KILL -f \"$APP_EXEC_RE\" 2>/dev/null || true
        break
    fi
    sleep 0.25
done

log \"swapping in the new bundle\"
rm -rf \"$APP_PATH\"
mv \"${APP_PATH}.new\" \"$APP_PATH\" || fail \"could not move the new bundle into place\"

hdiutil detach \"$VOLUME_PATH\" -quiet >/dev/null 2>&1 || true
VOLUME_PATH=\"\"
rm -f \"$DMG_PATH\"

log \"relaunching openlid\"
open -b io.openlid.app
log \"done\"
";

/// The installer script for updater process `pid`, image `dmg` and
/// application path `app`: the fixed script with the three values filled
/// in.
pub open spec fn installer_script(pid: u32, dmg: Seq<char>, app: Seq<char>) -> Seq<char> {
    SCRIPT_HEAD@ + decimal(pid as nat) + SCRIPT_AFTER_PID@ + dmg + SCRIPT_AFTER_DMG@ + app
        + SCRIPT_TAIL@
}

/// Render the installer script with its three runtime parameters filled
/// in.
pub fn render_installer_script(parent_pid: u32, dmg_path: &str, app_path: &str) -> (r: String)
    ensures
        r@ == installer_script(parent_pid, dmg_path@, app_path@),
{
    let mut out: Vec<char> = Vec::new();
    push_lit(&mut out, SCRIPT_HEAD);
    push_decimal(&mut out, parent_pid as u64);
    push_lit(&mut out, SCRIPT_AFTER_PID);
    push_lit(&mut out, dmg_path);
    push_lit(&mut out, SCRIPT_AFTER_DMG);
    push_lit(&mut out, app_path);
    push_lit(&mut out, SCRIPT_TAIL);
    assert(out@ =~= installer_script(parent_pid, dmg_path@, app_path@));
    string_of(&out)
}

/// Joining a path and a further component, as std's `Path::join` does on
/// Unix: an absolute component replaces the path; otherwise a separator is
/// inserted unless the path is empty or already ends with one.
pub open spec fn joined(dir: Seq<char>, name: Seq<char>) -> Seq<char> {
    if name.len() > 0 && name[0] == '/' {
        name
    } else if dir.len() == 0 || dir[dir.len() - 1] == '/' {
        dir + name
    } else {
        dir + seq!['/'] + name
    }
}

/// Join a directory path and a file name.
pub fn join_path(dir: &str, name: &Vec<char>) -> (r: String)
    ensures
        r@ == joined(dir@, name@),
{
    if name.len() > 0 && name[0] == '/' {
        return string_of(name);
    }
    let mut out = chars_of(dir);
    if out.len() > 0 && out[out.len() - 1] != '/' {
        out.push('/');
    }
    push_chars(&mut out, name);
    assert(out@ =~= joined(dir@, name@));
    string_of(&out)
}

/// `openlid-installer-<pid><ext>`.
pub open spec fn installer_file_name(pid: u32, ext: Seq<char>) -> Seq<char> {
    "openlid-installer-"@ + decimal(pid as nat) + ext
}

/// Path of the installer script: `<tmp>/openlid-installer-<pid>.sh`, so
/// concurrent updaters do not share a script.
pub fn installer_script_path(tmp_dir: &str, parent_pid: u32) -> (r: String)
    ensures
        r@ == joined(tmp_dir@, installer_file_name(parent_pid, ".sh"@)),
{
    let mut name: Vec<char> = Vec::new();
    push_lit(&mut name, "openlid-installer-");
    push_decimal(&mut name, parent_pid as u64);
    push_lit(&mut name, ".sh");
    assert(name@ =~= installer_file_name(parent_pid, ".sh"@));
    join_path(tmp_dir, &name)
}

/// Path of the installer log: `<tmp>/openlid-installer-<pid>.log`, next to
/// the script.
pub fn installer_log_path(tmp_dir: &str, parent_pid: u32) -> (r: String)
    ensures
        r@ == joined(tmp_dir@, installer_file_name(parent_pid, ".log"@)),
{
    let mut name: Vec<char> = Vec::new();
    push_lit(&mut name, "openlid-installer-");
    push_decimal(&mut name, parent_pid as u64);
    push_lit(&mut name, ".log");
    assert(name@ =~= installer_file_name(parent_pid, ".log"@));
    join_path(tmp_dir, &name)
}

/// The SHA-256 digest of `data` as computed by the `sha2` crate.
pub uninterp spec fn sha256_digest(data: Seq<u8>) -> Seq<u8>;

/// Calls `sha2::Sha256::digest(data)`. Claimed: the result is
/// `sha256_digest(data)` and is 32 bytes long (the digest's fixed output
/// size).
#[verifier::external_body]
fn sha256(data: &[u8]) -> (r: Vec<u8>)
    ensures
        r@ == sha256_digest(data@),
        r@.len() == 32,
{
    sha2::Sha256::digest(data).to_vec()
}

/// Lower-case hexadecimal digit for a value below 16.
pub open spec fn hex_digit(v: int) -> char {
    if v < 10 {
        (('0' as int) + v) as char
    } else {
        (('a' as int) + v - 10) as char
    }
}

/// Lower-case hexadecimal rendering of bytes, two digits per byte.
pub open spec fn hex_lower(b: Seq<u8>) -> Seq<char>
    decreases b.len(),
{
    if b.len() == 0 {
        Seq::empty()
    } else {
        hex_lower(b.drop_last()) + seq![hex_digit((b.last() / 16) as int), hex_digit((b.last() % 16) as int)]
    }
}

fn hex_char(v: u8) -> (r: char)
    requires
        v < 16,
    ensures
        r == hex_digit(v as int),
{
    if v < 10 {
        ((('0' as u8) + v) as char)
    } else {
        ((('a' as u8) + v - 10) as char)
    }
}

/// Render bytes as lower-case hexadecimal.
pub fn to_hex_lower(b: &Vec<u8>) -> (r: Vec<char>)
    ensures
        r@ == hex_lower(b@),
{
    let mut out: Vec<char> = Vec::new();
    let mut i: usize = 0;
    while i < b.len()
        invariant
            i <= b.len(),
            out@ == hex_lower(b@.take(i as int)),
        decreases b.len() - i,
    {
        let x = b[i];
        out.push(hex_char(x / 16));
        out.push(hex_char(x % 16));
        assert(b@.take(i + 1).drop_last() =~= b@.take(i as int));
        i = i + 1;
        assert(out@ =~= hex_lower(b@.take(i as int)));
    }
    assert(b@.take(b@.len() as int) =~= b@);
    out
}

/// Equality ignoring ASCII case.
pub open spec fn eq_ignore_case(a: Seq<char>, b: Seq<char>) -> bool {
    a.len() == b.len() && forall|i: int| 0 <= i < a.len() ==> lower_char(a[i]) == lower_char(b[i])
}

fn lower_of(c: char) -> (r: char)
    ensures
        r == lower_char(c),
{
    if 'A' <= c && c <= 'Z' {
        (((c as u32) + 32) as u8) as char
    } else {
        c
    }
}

/// Compare two texts ignoring ASCII case.
pub fn equal_ignoring_case(a: &Vec<char>, b: &Vec<char>) -> (r: bool)
    ensures
        r == eq_ignore_case(a@, b@),
{
    if a.len() != b.len() {
        return false;
    }
    let mut i: usize = 0;
    while i < a.len()
        invariant
            a.len() == b.len(),
            i <= a.len(),
            forall|j: int| 0 <= j < i ==> lower_char(a@[j]) == lower_char(b@[j]),
        decreases a.len() - i,
    {
        if lower_of(a[i]) != lower_of(b[i]) {
            return false;
        }
        i = i + 1;
    }
    true
}

/// A checksum that did not match: what was expected and what was computed
/// (lower-case hex).
#[derive(Debug, Clone, PartialEq, Eq)]
pub struct DigestMismatch {
    pub expected: String,
    pub actual: String,
}

/// Check `data` against an expected SHA-256 hex digest, ignoring case.
pub fn verify_sha256(data: &[u8], expected_hex: &str) -> (r: Result<(), DigestMismatch>)
    ensures
        r is Ok <==> eq_ignore_case(hex_lower(sha256_digest(data@)), expected_hex@),
        r matches Err(m) ==> m.expected@ == expected_hex@ && m.actual@ == hex_lower(
            sha256_digest(data@),
        ),
{
    let digest = sha256(data);
    let actual = to_hex_lower(&digest);
    let expected = chars_of(expected_hex);
    if equal_ignoring_case(&actual, &expected) {
        Ok(())
    } else {
        Err(DigestMismatch { expected: string_of(&expected), actual: string_of(&actual) })
    }
}

} // verus!
