//! End-to-end scenario against a real pseudo-terminal: the caller owns
//! the handles and drives the registry, exactly as the surrounding
//! application does — spawn after asking, feed output chunks in, write
//! input through the PTY after the registry allows it, kill on the
//! registry's decision.

use std::io::{Read, Write};

use portable_pty::{native_pty_system, Child, ChildKiller, CommandBuilder, PtySize};

use mailauncher::manager::{ProcessManager, StopAction};

/// Feeds PTY output into the registry until some recent history chunk
/// contains `needle`, or the stream ends, or `max_reads` chunks passed.
fn feed_until_seen(
    reader: &mut Box<dyn Read + Send>,
    mgr: &mut ProcessManager,
    needle: &str,
    max_reads: usize,
) -> bool {
    let mut buf = [0u8; 4096];
    for _ in 0..max_reads {
        match reader.read(&mut buf) {
            Ok(0) => return false,
            Ok(n) => {
                let text = String::from_utf8_lossy(&buf[..n]).to_string();
                mgr.add_output("inst1", "main", text);
                let history = mgr.get_output_history("inst1", "main", 10);
                if history.iter().any(|chunk| chunk.contains(needle)) {
                    return true;
                }
            }
            Err(_) => return false,
        }
    }
    false
}

#[test]
fn pty_session_announces_itself_and_echoes_input() {
    let mut mgr = ProcessManager::new();
    assert!(mgr.start_allowed("inst1", "main"));

    let pty = native_pty_system();
    let pair = pty
        .openpty(PtySize { rows: 30, cols: 120, pixel_width: 0, pixel_height: 0 })
        .unwrap();
    let mut cmd = CommandBuilder::new("sh");
    cmd.arg("-c");
    cmd.arg("echo ready; cat");
    let mut child = pair.slave.spawn_command(cmd).unwrap();
    let mut reader = pair.master.try_clone_reader().unwrap();
    let mut writer = pair.master.take_writer().unwrap();

    mgr.register_started("inst1", "main", child.process_id());
    assert!(mgr.is_component_running("inst1", "main"));
    assert!(!mgr.start_allowed("inst1", "main"));

    // The child announces itself; the announcement reaches the history.
    assert!(feed_until_seen(&mut reader, &mut mgr, "ready", 50));
    let history = mgr.get_output_history("inst1", "main", 10);
    assert!(history.iter().any(|chunk| chunk.contains("ready")));

    // The registry allows writing to the live session; the bytes go down
    // the PTY and the echoed response appears in subsequent history.
    assert!(mgr.write_to_process("inst1", "main").is_ok());
    writer.write_all(b"ping\n").unwrap();
    writer.flush().unwrap();
    assert!(feed_until_seen(&mut reader, &mut mgr, "ping", 50));

    // Stopping decides a kill; the caller, owning the handle, performs it.
    let (ok, action) = mgr.stop_process("inst1", "main", false);
    assert!(ok);
    assert!(matches!(action, StopAction::KillProcess));
    let _ = child.kill();
    let _ = child.wait();
    assert!(!mgr.is_component_running("inst1", "main"));
    assert_eq!(mgr.get_process_pid("inst1", "main"), None);
}
