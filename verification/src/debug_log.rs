//! Where the debug log is written.
use vstd::prelude::*;

verus! {

/// The log's own directory under the home directory.
pub const DEBUG_LOG_DIR: &'static str = ".sqagent";

/// The directory of a legacy install, under the home directory.
pub const LEGACY_LOG_DIR: &'static str = ".codex";

/// The log file's name.
pub const DEBUG_LOG_FILE: &'static str = "sqagent-debug.log";

/// The directory, under the home directory, that the debug log goes to:
/// `.sqagent`, or `.codex` when only a legacy install's `.codex` exists.
pub open spec fn log_dir_for(has_log_dir: bool, has_legacy_dir: bool) -> Seq<char> {
    if !has_log_dir && has_legacy_dir {
        LEGACY_LOG_DIR@
    } else {
        DEBUG_LOG_DIR@
    }
}

/// The directory, under the home directory, that the debug log goes to,
/// given whether `.sqagent` and a legacy `.codex` exist there.
pub fn debug_log_dir(has_log_dir: bool, has_legacy_dir: bool) -> (r: &'static str)
    ensures
        r@ == log_dir_for(has_log_dir, has_legacy_dir),
{
    if !has_log_dir && has_legacy_dir {
        LEGACY_LOG_DIR
    } else {
        DEBUG_LOG_DIR
    }
}

} // verus!
