//! How the application was installed, judged from its canonical path.

use vstd::prelude::*;
use crate::text::{chars_of, string_of, has_prefix, starts_with_lit};

verus! {

/// How the running application was installed.
#[derive(Debug, Clone, PartialEq, Eq)]
pub enum InstallMethod {
    /// Through the Homebrew cask: updates are left to Homebrew.
    Homebrew,
    /// A bundle copied directly into the Applications folder.
    Manual,
    /// Anything else, e.g. a development build; the path is kept so it can
    /// be shown.
    Dev { path: String },
}

/// The canonical install location for end-user builds.
pub const APP_PATH: &'static str = "/Applications/OpenLid.app";

/// The Homebrew cask directory on Intel machines.
pub const HOMEBREW_CASKROOM_INTEL: &'static str = "/usr/local/Caskroom/openlid";

/// The Homebrew cask directory on Apple-silicon machines.
pub const HOMEBREW_CASKROOM_ARM: &'static str = "/opt/homebrew/Caskroom/openlid";

/// Whether std's `Path` equality holds between the two paths (it compares
/// path components, not raw text).
pub uninterp spec fn path_components_equal(a: Seq<char>, b: Seq<char>) -> bool;

/// Compares two paths with std's `Path::eq`. Claimed: the result is
/// `path_components_equal` of the two texts, and identical texts are equal
/// paths.
#[verifier::external_body]
fn paths_equal(a: &str, b: &str) -> (r: bool)
    ensures
        r == path_components_equal(a@, b@),
        a@ == b@ ==> r,
{
    std::path::Path::new(a) == std::path::Path::new(b)
}

/// The install method of a canonical application path: under a Homebrew
/// cask directory, the Applications bundle itself, or anything else.
pub open spec fn install_method_of(p: Seq<char>) -> int {
    if has_prefix(p, HOMEBREW_CASKROOM_INTEL@) || has_prefix(p, HOMEBREW_CASKROOM_ARM@) {
        0
    } else if path_components_equal(p, APP_PATH@) {
        1
    } else {
        2
    }
}

/// Classify a canonical application path without touching the file
/// system. A path under either Homebrew cask directory is `Homebrew`; the
/// Applications bundle path is `Manual`; any other path is `Dev`, carrying
/// the path.
pub fn classify(canonical: &str) -> (r: InstallMethod)
    ensures
        install_method_of(canonical@) == 0 ==> r == InstallMethod::Homebrew,
        install_method_of(canonical@) == 1 ==> r == InstallMethod::Manual,
        install_method_of(canonical@) == 2 ==> (r matches InstallMethod::Dev { path }
            && path@ == canonical@),
{
    let s = chars_of(canonical);
    if starts_with_lit(&s, HOMEBREW_CASKROOM_INTEL) || starts_with_lit(&s, HOMEBREW_CASKROOM_ARM) {
        return InstallMethod::Homebrew;
    }
    if paths_equal(canonical, APP_PATH) {
        return InstallMethod::Manual;
    }
    InstallMethod::Dev { path: string_of(&s) }
}

} // verus!
