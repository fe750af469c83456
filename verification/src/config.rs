//! What the program falls back on where the command line is silent, and how
//! a run reports its end to the caller.

use crate::capture::ConfigError;
use crate::mode::CaptureMode;
use vstd::prelude::*;

verus! {

/// The lower end of both axes where none is given.
pub const DEFAULT_AXIS_MIN: u32 = 0;

/// The upper end of both axes where none is given.
pub const DEFAULT_AXIS_MAX: u32 = 100;

/// The exit status of a run that ended in the ordinary way.
pub const STATUS_OK: u8 = 0;

/// The exit status of a run that was refused for its configuration, so that
/// a caller can tell it from a clean one.
pub const STATUS_CONFIG_FAULT: u8 = 2;

/// The title of the window where none is given.
pub open spec fn default_title() -> Seq<char> {
    "Grapher"@
}

/// The mode selector where none is given.
pub open spec fn default_selector() -> Seq<char> {
    seq!['1']
}

/// The text that was given, else the fallback.
pub open spec fn given_or(given: Option<&str>, fallback: Seq<char>) -> Seq<char> {
    match given {
        Some(text) => text@,
        None => fallback,
    }
}

/// The exit status for a run with the given fault of its configuration, or
/// with none.
pub open spec fn status_of(fault: Option<ConfigError>) -> u8 {
    if fault is Some {
        STATUS_CONFIG_FAULT
    } else {
        STATUS_OK
    }
}

/// The title of the window: the one given, else `Grapher`.
pub fn window_title(title: Option<&str>) -> (shown: String)
    ensures
        shown@ == given_or(title, default_title()),
{
    match title {
        Some(text) => text.to_owned(),
        None => "Grapher".to_owned(),
    }
}

/// The mode selector: the one given, else the selector of the default mode.
pub fn selector(given: Option<&str>) -> (chosen: String)
    ensures
        chosen@ == given_or(given, default_selector()),
        given is None ==> CaptureMode::of_token(chosen@) == Some(CaptureMode::YFromFirstGroup),
{
    match given {
        Some(text) => text.to_owned(),
        None => CaptureMode::YFromFirstGroup.token().to_owned(),
    }
}

/// The exit status of the process: zero for a run that opened its window,
/// `STATUS_CONFIG_FAULT` for a configuration that was refused.
pub fn exit_status(fault: Option<ConfigError>) -> (status: u8)
    ensures
        status == status_of(fault),
{
    match fault {
        Some(_) => STATUS_CONFIG_FAULT,
        None => STATUS_OK,
    }
}

} // verus!
