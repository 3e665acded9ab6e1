//! Registry-level tests of the process supervisor: start exclusivity,
//! idempotent stop, scrollback bounds, restart carry-over, resource and
//! uptime queries, resize bookkeeping.

use mailauncher::manager::{resources_from_sample, ProcessManager, StopAction};
use mailauncher::session::{
    DEFAULT_BUFFER_BOUND, RESTART_KEEP_CHUNKS, SESSION_RESTART_MARKER, SESSION_START_MARKER,
};
use mailauncher::strutil::session_id_of;
use mailauncher::bridge::terminal_event_name;
use mailauncher::errors::AppError;

#[test]
fn fresh_manager_has_default_geometry_and_no_sessions() {
    let m = ProcessManager::new();
    assert_eq!(m.pty_rows, 30);
    assert_eq!(m.pty_cols, 120);
    assert!(!m.is_component_running("inst1", "main"));
    assert!(!m.is_instance_running("inst1"));
    assert_eq!(m.get_process_pid("inst1", "main"), None);
    assert_eq!(m.get_output_history("inst1", "main", 100), Vec::<String>::new());
}

#[test]
fn session_id_joins_identity_with_underscore() {
    assert_eq!(session_id_of("inst1", "main"), "inst1_main");
    assert_eq!(
        terminal_event_name("inst1", "main"),
        "terminal-output-inst1_main"
    );
}

#[test]
fn register_marks_session_live_and_buffers_start_marker() {
    let mut m = ProcessManager::new();
    assert!(m.start_allowed("inst1", "main"));
    m.register_started_at("inst1", "main", Some(4242), 1_000);
    assert!(m.is_component_running("inst1", "main"));
    assert!(m.is_instance_running("inst1"));
    assert_eq!(m.get_process_pid("inst1", "main"), Some(4242));
    let history = m.get_output_history("inst1", "main", 10);
    assert_eq!(history, vec![SESSION_START_MARKER.to_string()]);
}

#[test]
fn starting_twice_is_refused_while_live() {
    let mut m = ProcessManager::new();
    m.register_started_at("inst1", "main", Some(1), 0);
    // A second start without an intervening stop is "not newly started".
    assert!(!m.start_allowed("inst1", "main"));
    // After a stop the identity can start again.
    let (ok, action) = m.stop_process("inst1", "main", false);
    assert!(ok);
    assert!(matches!(action, StopAction::KillProcess));
    assert!(m.start_allowed("inst1", "main"));
}

#[test]
fn stop_is_idempotent_across_absent_dead_and_live() {
    let mut m = ProcessManager::new();
    // Absent: trivially stopped.
    let (ok, action) = m.stop_process("inst1", "main", false);
    assert!(ok);
    assert!(matches!(action, StopAction::NoSession));
    // Live: stopped with a kill.
    m.register_started_at("inst1", "main", Some(7), 0);
    let (ok, action) = m.stop_process("inst1", "main", false);
    assert!(ok);
    assert!(matches!(action, StopAction::KillProcess));
    assert!(!m.is_component_running("inst1", "main"));
    // Dead: stopped again without anything to kill.
    let (ok, action) = m.stop_process("inst1", "main", true);
    assert!(ok);
    assert!(matches!(action, StopAction::AlreadyStopped));
    assert!(!m.is_component_running("inst1", "main"));
}

#[test]
fn termination_report_clears_pid_and_liveness_together() {
    let mut m = ProcessManager::new();
    m.register_started_at("inst1", "main", Some(99), 0);
    m.add_output("inst1", "main", "some output".to_string());
    m.note_exited("inst1", "main");
    assert!(!m.is_component_running("inst1", "main"));
    assert_eq!(m.get_process_pid("inst1", "main"), None);
    // The scrollback survives the death of the process.
    let history = m.get_output_history("inst1", "main", 10);
    assert_eq!(history.len(), 2);
    assert_eq!(history[1], "some output");
}

#[test]
fn appends_beyond_the_bound_keep_the_most_recent_chunks_in_order() {
    let mut m = ProcessManager::new();
    m.register_started_at("inst1", "main", Some(1), 0);
    let appended = DEFAULT_BUFFER_BOUND + 50;
    for i in 0..appended {
        m.add_output("inst1", "main", format!("line {}", i));
    }
    // One start marker plus 1050 appends exceeds the bound of 1000: only
    // the last 1000 chunks remain, in append order.
    let history = m.get_output_history("inst1", "main", usize::MAX);
    assert_eq!(history.len(), DEFAULT_BUFFER_BOUND);
    assert_eq!(history[0], format!("line {}", appended - DEFAULT_BUFFER_BOUND));
    assert_eq!(history[DEFAULT_BUFFER_BOUND - 1], format!("line {}", appended - 1));
}

#[test]
fn history_bounds_whole_buffer_and_empty() {
    let mut m = ProcessManager::new();
    m.register_started_at("inst1", "main", Some(1), 0);
    m.add_output("inst1", "main", "a".to_string());
    m.add_output("inst1", "main", "b".to_string());
    // k = 0 returns nothing.
    assert_eq!(m.get_output_history("inst1", "main", 0), Vec::<String>::new());
    // k >= length returns the whole buffer (marker plus two chunks).
    let all = m.get_output_history("inst1", "main", 100);
    assert_eq!(all.len(), 3);
    assert_eq!(all[1], "a");
    assert_eq!(all[2], "b");
    // k below the length returns the most recent k.
    let last_two = m.get_output_history("inst1", "main", 2);
    assert_eq!(last_two, vec!["a".to_string(), "b".to_string()]);
    // Unknown identities read as empty.
    assert_eq!(m.get_output_history("ghost", "main", 5), Vec::<String>::new());
}

#[test]
fn restart_preserves_tail_then_marker_then_new_output() {
    let mut m = ProcessManager::new();
    m.register_started_at("inst1", "main", Some(1), 0);
    for i in 0..600 {
        m.add_output("inst1", "main", format!("old {}", i));
    }
    m.note_exited("inst1", "main");
    m.register_started_at("inst1", "main", Some(2), 10);
    m.add_output("inst1", "main", "new 0".to_string());

    let history = m.get_output_history("inst1", "main", usize::MAX);
    // At most the last 500 chunks of the prior scrollback survive; the
    // prior scrollback was the start marker plus 600 lines, so the tail
    // is "old 100" .. "old 599".
    assert_eq!(history.len(), RESTART_KEEP_CHUNKS + 2);
    assert_eq!(history[0], "old 100");
    assert_eq!(history[RESTART_KEEP_CHUNKS - 1], "old 599");
    assert_eq!(history[RESTART_KEEP_CHUNKS], SESSION_RESTART_MARKER);
    assert_eq!(history[RESTART_KEEP_CHUNKS + 1], "new 0");
}

#[test]
fn restart_of_short_scrollback_keeps_everything() {
    let mut m = ProcessManager::new();
    m.register_started_at("inst1", "main", Some(1), 0);
    m.add_output("inst1", "main", "only line".to_string());
    let (ok, _) = m.stop_process("inst1", "main", false);
    assert!(ok);
    m.register_started_at("inst1", "main", Some(2), 5);
    let history = m.get_output_history("inst1", "main", usize::MAX);
    assert_eq!(
        history,
        vec![
            SESSION_START_MARKER.to_string(),
            "only line".to_string(),
            SESSION_RESTART_MARKER.to_string(),
        ]
    );
}

#[test]
fn resources_without_pid_are_zero_without_error() {
    let mut m = ProcessManager::new();
    // Unknown identity: no pid recorded.
    assert_eq!(m.get_process_resources("inst1", "main"), (0, 0));
    // Session registered without a pid.
    m.register_started_at("inst1", "main", None, 0);
    assert_eq!(m.get_process_resources("inst1", "main"), (0, 0));
    // Dead session: the pid was cleared with the liveness flag.
    m.register_started_at("inst1", "gateway", Some(1), 0);
    m.note_exited("inst1", "gateway");
    assert_eq!(m.get_process_resources("inst1", "gateway"), (0, 0));
}

#[test]
fn resource_samples_scale_memory_to_whole_mebibytes() {
    // The CPU share passes through; memory is scaled bytes -> MiB.
    assert_eq!(resources_from_sample(Some((12, 5 * 1048576 + 123))), (12, 5));
    assert_eq!(resources_from_sample(Some((0, 1048575))), (0, 0));
    assert_eq!(resources_from_sample(Some((250, 1048576))), (250, 1));
    // A vanished process samples as zero usage.
    assert_eq!(resources_from_sample(None), (0, 0));
}

#[test]
fn uptime_is_the_elapsed_whole_seconds() {
    let mut m = ProcessManager::new();
    assert_eq!(m.uptime_seconds_at("inst1", "main", 5_000), None);
    m.register_started_at("inst1", "main", Some(1), 1_000);
    assert_eq!(m.uptime_seconds_at("inst1", "main", 61_000), Some(60));
    assert_eq!(m.uptime_seconds_at("inst1", "main", 1_999), Some(0));
    // A clock reading earlier than the start reads as zero.
    assert_eq!(m.uptime_seconds_at("inst1", "main", 0), Some(0));
    assert!(m.get_process_uptime("inst1", "main").is_some());
    assert!(m.get_process_uptime("inst1", "ghost").is_none());
}

#[test]
fn write_requires_a_live_session() {
    let mut m = ProcessManager::new();
    match m.write_to_process("inst1", "main") {
        Err(AppError::NotFound(msg)) => {
            assert_eq!(msg, "session not found: inst1_main");
        }
        other => panic!("expected NotFound, got {:?}", other),
    }
    m.register_started_at("inst1", "main", Some(1), 0);
    assert!(m.write_to_process("inst1", "main").is_ok());
    m.note_exited("inst1", "main");
    match m.write_to_process("inst1", "main") {
        Err(AppError::Process(msg)) => {
            assert_eq!(msg, "session has no input channel: inst1_main");
        }
        other => panic!("expected Process error, got {:?}", other),
    }
}

#[test]
fn stop_all_stops_one_instance_and_spares_the_other() {
    let mut m = ProcessManager::new();
    m.register_started_at("inst1", "main", Some(1), 0);
    m.register_started_at("inst1", "gateway", Some(2), 0);
    m.register_started_at("inst2", "main", Some(3), 0);

    let results = m.stop_all_instance_processes("inst1");
    assert_eq!(results.len(), 2);
    assert!(results.contains(&("main".to_string(), true)));
    assert!(results.contains(&("gateway".to_string(), true)));

    assert!(!m.is_component_running("inst1", "main"));
    assert!(!m.is_component_running("inst1", "gateway"));
    assert!(!m.is_instance_running("inst1"));
    // The untouched instance keeps running.
    assert!(m.is_component_running("inst2", "main"));
}

#[test]
fn stop_all_of_unknown_instance_reports_nothing() {
    let mut m = ProcessManager::new();
    let results = m.stop_all_instance_processes("ghost");
    assert!(results.is_empty());
}

#[test]
fn resize_applies_only_to_live_sessions() {
    let mut m = ProcessManager::new();
    // Unknown identity: a silent no-op.
    assert!(!m.resize_pty("inst1", "main", 40, 100));
    m.register_started_at("inst1", "main", Some(1), 0);
    assert_eq!(m.pty_size("inst1", "main"), Some((30, 120)));
    // Live: applied, and a later query reflects the new geometry.
    assert!(m.resize_pty("inst1", "main", 40, 100));
    assert_eq!(m.pty_size("inst1", "main"), Some((40, 100)));
    // Dead: a silent no-op that leaves the recorded geometry.
    m.note_exited("inst1", "main");
    assert!(!m.resize_pty("inst1", "main", 50, 150));
    assert_eq!(m.pty_size("inst1", "main"), Some((40, 100)));
}

#[test]
fn configured_geometry_is_handed_to_new_sessions() {
    let mut m = ProcessManager::with_pty_size(24, 80);
    m.register_started_at("inst1", "main", Some(1), 0);
    assert_eq!(m.pty_size("inst1", "main"), Some((24, 80)));
}

#[test]
fn cleanup_stops_everything_and_keeps_scrollbacks() {
    let mut m = ProcessManager::new();
    m.register_started_at("inst1", "main", Some(1), 0);
    m.register_started_at("inst2", "main", Some(2), 0);
    m.add_output("inst1", "main", "kept".to_string());
    m.cleanup();
    assert!(!m.is_instance_running("inst1"));
    assert!(!m.is_instance_running("inst2"));
    assert_eq!(m.get_process_pid("inst1", "main"), None);
    let history = m.get_output_history("inst1", "main", 10);
    assert_eq!(history[1], "kept");
}

#[test]
fn trailing_output_after_drop_is_ignored() {
    let mut m = ProcessManager::new();
    // Appends for identities the registry does not know are dropped.
    m.add_output("inst1", "main", "late chunk".to_string());
    assert_eq!(m.get_output_history("inst1", "main", 10), Vec::<String>::new());
}

#[test]
fn error_messages_carry_their_text() {
    let e = AppError::Database("no such table".to_string());
    assert_eq!(e.message(), "no such table");
    let e = AppError::FileSystem("read-only".to_string());
    assert_eq!(e.message(), "read-only");
    let e = AppError::Network("timed out".to_string());
    assert_eq!(e.message(), "timed out");
    let e = AppError::Config("bad key".to_string());
    assert_eq!(e.message(), "bad key");
    let e = AppError::Internal("broken invariant".to_string());
    assert_eq!(e.message(), "broken invariant");
}
