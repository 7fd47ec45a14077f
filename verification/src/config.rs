//! The persisted user configuration and the decisions around loading it.

use vstd::prelude::*;
use crate::mode::Modifiers;
use crate::text::{push_lit, string_of};

verus! {

/// Highest configuration schema version this build knows about.
pub const SCHEMA_VERSION: u32 = 1;

/// Persisted user configuration.
///
/// * Toggle state: `enabled` (restored on launch unless `activate_at_launch`).
/// * Modifier rules: `modifiers`.
/// * Preferences: `start_at_login`, `activate_at_launch`,
///   `battery_threshold_pct`, `prevent_display_sleep`,
///   `in_transit_timeout_minutes`.
#[derive(Debug, Clone, Copy, PartialEq, Eq, Structural)]
pub struct Config {
    pub version: u32,
    pub enabled: bool,
    pub modifiers: Modifiers,
    pub start_at_login: bool,
    pub activate_at_launch: bool,
    pub battery_threshold_pct: Option<u8>,
    pub prevent_display_sleep: bool,
    pub in_transit_timeout_minutes: Option<u32>,
}

/// The version assumed for a configuration written without one: always 1,
/// since such a file predates versioning.
pub fn default_schema_version() -> (r: u32)
    ensures
        r == 1,
{
    1
}

/// Keeping the display awake is on unless switched off.
pub fn default_prevent_display_sleep() -> (r: bool)
    ensures
        r,
{
    true
}

/// The fresh-install configuration.
pub open spec fn default_config() -> Config {
    Config {
        version: SCHEMA_VERSION,
        enabled: false,
        modifiers: Modifiers { only_on_ac: false, min_battery: None, schedule: None },
        start_at_login: false,
        activate_at_launch: false,
        battery_threshold_pct: None,
        prevent_display_sleep: true,
        in_transit_timeout_minutes: None,
    }
}

impl Default for Config {
    /// Current schema version, switched off, no rules, no optional
    /// preference set, display kept awake.
    fn default() -> (r: Config)
        ensures
            r == default_config(),
    {
        Config {
            version: SCHEMA_VERSION,
            enabled: false,
            modifiers: Modifiers::default(),
            start_at_login: false,
            activate_at_launch: false,
            battery_threshold_pct: None,
            prevent_display_sleep: default_prevent_display_sleep(),
            in_transit_timeout_minutes: None,
        }
    }
}

/// Why a configuration could not be loaded or saved.
#[derive(Debug, Clone, PartialEq, Eq)]
pub enum ConfigError {
    /// No home directory to place the configuration in.
    NoHome,
    /// Reading or writing the file failed for a reason other than absence.
    Io(String),
    /// The file is not valid configuration text.
    Parse(String),
    /// The configuration could not be rendered as text.
    Serialize(String),
}

/// The human-readable text of a configuration error.
pub open spec fn config_error_text(e: ConfigError) -> Seq<char> {
    match e {
        ConfigError::NoHome => "home directory not found"@,
        ConfigError::Io(m) => "io error: "@ + m@,
        ConfigError::Parse(m) => "parse error: "@ + m@,
        ConfigError::Serialize(m) => "serialize error: "@ + m@,
    }
}

impl ConfigError {
    /// The human-readable text of this error.
    pub fn message(&self) -> (r: String)
        ensures
            r@ == config_error_text(*self),
    {
        let mut out: Vec<char> = Vec::new();
        match self {
            ConfigError::NoHome => push_lit(&mut out, "home directory not found"),
            ConfigError::Io(m) => {
                push_lit(&mut out, "io error: ");
                push_lit(&mut out, m.as_str());
            },
            ConfigError::Parse(m) => {
                push_lit(&mut out, "parse error: ");
                push_lit(&mut out, m.as_str());
            },
            ConfigError::Serialize(m) => {
                push_lit(&mut out, "serialize error: ");
                push_lit(&mut out, m.as_str());
            },
        }
        proof {
            match self {
                ConfigError::NoHome => {
                    assert(out@ =~= config_error_text(*self));
                },
                ConfigError::Io(m) => {
                    assert(out@ =~= config_error_text(*self));
                },
                ConfigError::Parse(m) => {
                    assert(out@ =~= config_error_text(*self));
                },
                ConfigError::Serialize(m) => {
                    assert(out@ =~= config_error_text(*self));
                },
            }
        }
        string_of(&out)
    }
}

/// What became of reading the configuration file and, when it could be
/// read, of parsing its text.
#[derive(Debug, Clone, PartialEq, Eq)]
pub enum LoadStep {
    /// The file does not exist.
    NotFound,
    /// The file exists but could not be read.
    ReadFailed(String),
    /// The file was read and its text parsed into a configuration.
    Parsed(Config),
    /// The file was read but its text is not a valid configuration.
    ParseFailed(String),
}

impl Config {
    /// The result of loading: a missing file yields the default
    /// configuration, any other read failure an `Io` error, a parse failure
    /// a `Parse` error, and a parsed file its configuration (also when it
    /// carries a newer schema version, so a downgraded build still loads).
    pub fn load_from(step: LoadStep) -> (r: Result<Config, ConfigError>)
        ensures
            match step {
                LoadStep::NotFound => r == Ok::<Config, ConfigError>(default_config()),
                LoadStep::ReadFailed(m) => r == Err::<Config, ConfigError>(ConfigError::Io(m)),
                LoadStep::Parsed(c) => r == Ok::<Config, ConfigError>(c),
                LoadStep::ParseFailed(m) => r == Err::<Config, ConfigError>(
                    ConfigError::Parse(m),
                ),
            },
    {
        match step {
            LoadStep::NotFound => Ok(Config::default()),
            LoadStep::ReadFailed(m) => Err(ConfigError::Io(m)),
            LoadStep::Parsed(c) => Ok(c),
            LoadStep::ParseFailed(m) => Err(ConfigError::Parse(m)),
        }
    }

    /// Whether this configuration was written by a newer build: its schema
    /// version is above the one this build knows.
    pub fn is_from_newer_schema(&self) -> (r: bool)
        ensures
            r == (self.version > SCHEMA_VERSION),
    {
        self.version > SCHEMA_VERSION
    }
}

/// What the one-shot migration from the legacy configuration location
/// must do.
#[derive(Debug, Clone, Copy, PartialEq, Eq, Structural)]
pub enum MigrationStep {
    /// Leave everything as it is.
    Nothing,
    /// Load the legacy file and save it at the current location, leaving
    /// the legacy file in place.
    CopyLegacy,
}

/// Copy only when the current file is absent, a legacy location is known
/// (`legacy_exists` is `Some`), and a legacy file exists there.
pub open spec fn migration_plan(current_exists: bool, legacy_exists: Option<bool>) -> MigrationStep {
    if !current_exists && legacy_exists == Some(true) {
        MigrationStep::CopyLegacy
    } else {
        MigrationStep::Nothing
    }
}

/// The migration decision.
pub fn migration_step(current_exists: bool, legacy_exists: Option<bool>) -> (r: MigrationStep)
    ensures
        r == migration_plan(current_exists, legacy_exists),
{
    if current_exists {
        return MigrationStep::Nothing;
    }
    match legacy_exists {
        Some(true) => MigrationStep::CopyLegacy,
        _ => MigrationStep::Nothing,
    }
}

/// Once the current configuration exists, migration never touches it.
pub proof fn law_migration_never_overwrites(legacy_exists: Option<bool>)
    ensures
        migration_plan(true, legacy_exists) == MigrationStep::Nothing,
{
}

/// Without a legacy file, migration never creates the current one.
pub proof fn law_migration_needs_legacy_file(current_exists: bool, legacy_exists: Option<bool>)
    requires
        legacy_exists != Some(true),
    ensures
        migration_plan(current_exists, legacy_exists) == MigrationStep::Nothing,
{
}

} // verus!
