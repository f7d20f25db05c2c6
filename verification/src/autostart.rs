//! Starting with Windows: a value under the current user's `Run` key.
//!
//! The value quotes the program's path (for paths with spaces) and adds
//! `--tray`, so that a start with Windows shows only the tray icon; a start
//! by hand never has the flag and always opens the window.

use vstd::prelude::*;
use vstd::string::*;
use crate::text::{owned, cat3};

verus! {

pub const RUN_KEY: &'static str = "HKCU\\Software\\Microsoft\\Windows\\CurrentVersion\\Run";
pub const VALUE_NAME: &'static str = "CampusFlow";
/// Reported where there is no `Run` key to write.
pub const UNSUPPORTED: &'static str = "暂只支持 Windows";

/// The command line stored under the `Run` key for the program at `exe`.
pub fn run_value(exe: &str) -> (v: String)
    ensures
        v@ == "\""@ + exe@ + "\" --tray"@,
{
    cat3("\"", exe, "\" --tray")
}

/// Where there is no `Run` key, the program never starts with the system.
pub fn is_enabled() -> (b: bool)
    ensures
        !b,
{
    false
}

/// Where there is no `Run` key, asking to start with the system fails.
pub fn set_enabled(enable: bool) -> (r: Result<(), String>)
    ensures
        r matches Err(e) && e@ == UNSUPPORTED@,
{
    Err(owned(UNSUPPORTED))
}

} // verus!
