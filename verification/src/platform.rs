//! The seams to the operating system: controllers that hold the machine or
//! its display awake, the lid and power-source readers, and the error they
//! report. Implementations live with the platform glue (and in tests).

use vstd::prelude::*;
use crate::mode::{LidState, PowerSource};
use crate::text::{chars_of, contains_chars, has_infix, push_chars, push_lit, string_of};

verus! {

/// A failed platform call.
#[derive(Debug, Clone, PartialEq, Eq)]
pub enum PlatformError {
    /// A native call reported failure, with its description.
    Native(String),
    /// The privileged helper could not be reached.
    HelperUnavailable,
    /// An I/O error, with its description.
    Io(String),
}

/// The human-readable text of a platform error.
pub open spec fn platform_error_text(e: PlatformError) -> Seq<char> {
    match e {
        PlatformError::Native(m) => "platform call failed: "@ + m@,
        PlatformError::HelperUnavailable => "helper unavailable"@,
        PlatformError::Io(m) => "io: "@ + m@,
    }
}

impl PlatformError {
    /// The human-readable text of this error.
    pub fn message(&self) -> (r: String)
        ensures
            r@ == platform_error_text(*self),
    {
        let mut out: Vec<char> = Vec::new();
        match self {
            PlatformError::Native(m) => {
                push_lit(&mut out, "platform call failed: ");
                push_chars(&mut out, &chars_of(m.as_str()));
            },
            PlatformError::HelperUnavailable => {
                push_lit(&mut out, "helper unavailable");
            },
            PlatformError::Io(m) => {
                push_lit(&mut out, "io: ");
                push_chars(&mut out, &chars_of(m.as_str()));
            },
        }
        proof {
            match self {
                PlatformError::Native(m) => {
                    assert(out@ =~= "platform call failed: "@ + m@);
                },
                PlatformError::HelperUnavailable => {
                    assert(out@ =~= "helper unavailable"@);
                },
                PlatformError::Io(m) => {
                    assert(out@ =~= "io: "@ + m@);
                },
            }
        }
        string_of(&out)
    }
}

/// Holds the whole machine awake (system sleep prevention).
pub trait PowerController {
    fn prevent_sleep(&self) -> Result<(), PlatformError>;

    fn allow_sleep(&self) -> Result<(), PlatformError>;
}

/// Reads the lid. (Change notifications are wired by the platform glue.)
pub trait LidObserver {
    fn current(&self) -> LidState;
}

/// Reads the power source. (Change notifications are wired by the platform
/// glue.)
pub trait PowerSourceMonitor {
    fn current(&self) -> PowerSource;
}

/// Controls the display: detection of an external display, forcing the
/// built-in display to sleep, and the display-awake assertion.
pub trait DisplayController {
    fn has_external_display(&self) -> bool;

    fn force_display_sleep(&self) -> Result<(), PlatformError>;

    fn prevent_display_sleep(&self) -> Result<(), PlatformError>;

    fn allow_display_sleep(&self) -> Result<(), PlatformError>;
}

/// The message used when the helper reports failure without saying why.
pub open spec fn no_reason_message() -> Seq<char> {
    "helper reported failure with no error message"@
}

/// The helper's answer to a sleep-toggle request: success, or its error
/// (with a stock message when it gave none).
pub fn toggle_reply(ok: bool, error: Option<String>) -> (r: Result<(), PlatformError>)
    ensures
        ok ==> r is Ok,
        !ok ==> match error {
            Some(m) => r == Err::<(), PlatformError>(PlatformError::Native(m)),
            None => r matches Err(PlatformError::Native(m)) && m@ == no_reason_message(),
        },
{
    if ok {
        Ok(())
    } else {
        match error {
            Some(m) => Err(PlatformError::Native(m)),
            None => Err(PlatformError::Native(string_of(&chars_of("helper reported failure with no error message")))),
        }
    }
}

/// The helper's answer to a status request: whether sleep prevention is
/// active, or its error (with a stock message when it gave none).
pub fn status_reply(ok: bool, active: bool, error: Option<String>) -> (r: Result<
    bool,
    PlatformError,
>)
    ensures
        ok ==> r == Ok::<bool, PlatformError>(active),
        !ok ==> match error {
            Some(m) => r == Err::<bool, PlatformError>(PlatformError::Native(m)),
            None => r matches Err(PlatformError::Native(m)) && m@ == no_reason_message(),
        },
{
    if ok {
        Ok(active)
    } else {
        match error {
            Some(m) => Err(PlatformError::Native(m)),
            None => Err(PlatformError::Native(string_of(&chars_of("helper reported failure with no error message")))),
        }
    }
}

/// The error for a failure of the connection proxy itself.
pub fn proxy_error(description: &str) -> (r: PlatformError)
    ensures
        r matches PlatformError::Native(m) && m@ == "xpc proxy error: "@ + description@,
{
    let mut out: Vec<char> = Vec::new();
    push_lit(&mut out, "xpc proxy error: ");
    push_lit(&mut out, description);
    PlatformError::Native(string_of(&out))
}

/// The single-use slot a request's reply is delivered through: the error
/// handler and the reply handler may both fire, and only the first one's
/// value is delivered.
#[derive(Debug, Clone, Copy, PartialEq, Eq, Structural)]
pub struct ReplySlot {
    pub open: bool,
}

impl ReplySlot {
    /// A slot that has delivered nothing yet.
    pub fn new() -> (r: ReplySlot)
        ensures
            r.open,
    {
        ReplySlot { open: true }
    }

    /// Offer a value: it is delivered only if nothing was delivered before.
    pub fn fill(&mut self) -> (delivered: bool)
        ensures
            (delivered, *final(self)) == fill_outcome(*old(self)),
    {
        let was = self.open;
        self.open = false;
        was
    }
}

/// Offering a value to a slot: whether it is delivered, and the slot after.
pub open spec fn fill_outcome(s: ReplySlot) -> (bool, ReplySlot) {
    (s.open, ReplySlot { open: false })
}

/// Of two offers to a fresh slot, the first is delivered and the second is
/// not: a reply is delivered at most once.
pub proof fn law_reply_delivered_at_most_once(s: ReplySlot)
    ensures
        !(fill_outcome(s).0 && fill_outcome(fill_outcome(s).1).0),
        s.open ==> fill_outcome(s).0,
{
}

/// The power source a reading stands for: with no providing-source type,
/// AC; a type naming `Battery` is the battery, at the reported capacity
/// clamped to 0..=100 (100 when none is reported); anything else is AC.
pub open spec fn power_source_of(kind: Option<Seq<char>>, capacity: Option<i32>) -> PowerSource {
    match kind {
        None => PowerSource::Ac,
        Some(k) => if has_infix(k, "Battery"@) {
            PowerSource::Battery {
                percent: match capacity {
                    None => 100,
                    Some(c) => if c < 0 {
                        0
                    } else if c > 100 {
                        100
                    } else {
                        c as u8
                    },
                },
            }
        } else {
            PowerSource::Ac
        },
    }
}

/// Interpret a power-source reading.
pub fn power_source_from_reading(kind: Option<&str>, capacity: Option<i32>) -> (r: PowerSource)
    ensures
        r == power_source_of(
            match kind {
                Some(k) => Some(k@),
                None => None,
            },
            capacity,
        ),
{
    let k = match kind {
        None => return PowerSource::Ac,
        Some(k) => chars_of(k),
    };
    if !contains_chars(&k, &chars_of("Battery")) {
        return PowerSource::Ac;
    }
    let percent: u8 = match capacity {
        None => 100,
        Some(c) => if c < 0 {
            0
        } else if c > 100 {
            100
        } else {
            c as u8
        },
    };
    PowerSource::Battery { percent }
}

/// The lid a clamshell reading stands for: closed only when the reading
/// says so; no reading counts as open.
pub fn lid_from_clamshell(closed: Option<bool>) -> (r: LidState)
    ensures
        r == if closed == Some(true) {
            LidState::Closed
        } else {
            LidState::Open
        },
{
    match closed {
        Some(true) => LidState::Closed,
        _ => LidState::Open,
    }
}

} // verus!
