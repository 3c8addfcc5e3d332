use codex_onlysq::debug_log::debug_log_dir;
use codex_onlysq::debug_log::DEBUG_LOG_FILE;

#[test]
fn log_goes_to_sqagent_unless_only_a_legacy_codex_dir_exists() {
    assert_eq!(debug_log_dir(false, false), ".sqagent");
    assert_eq!(debug_log_dir(true, false), ".sqagent");
    assert_eq!(debug_log_dir(true, true), ".sqagent");
    assert_eq!(debug_log_dir(false, true), ".codex");
    assert_eq!(DEBUG_LOG_FILE, "sqagent-debug.log");
}
