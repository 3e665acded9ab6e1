//! Tests of the command resolver: interpreter resolution order, the
//! per-platform gateway conventions, and the error cases.

use mailauncher::errors::AppError;
use mailauncher::resolver::{
    build_component_command, build_napcat_command, get_venv_pip, get_venv_python,
    adapter_script_path, instance_venv_python_path, main_script_path, path_join,
    resolve_python, LaunchProbe, Platform,
};

fn probe_none() -> LaunchProbe {
    LaunchProbe {
        entry_script_exists: false,
        venv_python_exists: false,
        launcher_user_exists: false,
        launcher_exists: false,
        start_sh_exists: false,
    }
}

#[test]
fn joining_uses_the_platform_separator() {
    assert_eq!(path_join(Platform::Unix, "/root", "MaiBot"), "/root/MaiBot");
    assert_eq!(path_join(Platform::Windows, "C:\\inst", "MaiBot"), "C:\\inst\\MaiBot");
}

#[test]
fn venv_executables_follow_the_platform_layout() {
    assert_eq!(get_venv_python(Platform::Unix, "/i/.venv"), "/i/.venv/bin/python");
    assert_eq!(
        get_venv_python(Platform::Windows, "C:\\i\\.venv"),
        "C:\\i\\.venv\\Scripts\\python.exe"
    );
    assert_eq!(get_venv_pip(Platform::Unix, "/i/.venv"), "/i/.venv/bin/pip");
    assert_eq!(
        get_venv_pip(Platform::Windows, "C:\\i\\.venv"),
        "C:\\i\\.venv\\Scripts\\pip.exe"
    );
}

#[test]
fn probe_paths_name_the_entry_scripts() {
    assert_eq!(main_script_path(Platform::Unix, "/i"), "/i/MaiBot/bot.py");
    assert_eq!(
        adapter_script_path(Platform::Unix, "/i"),
        "/i/MaiBot-Napcat-Adapter/main.py"
    );
    assert_eq!(
        instance_venv_python_path(Platform::Unix, "/i"),
        "/i/.venv/bin/python"
    );
}

#[test]
fn interpreter_override_wins_over_everything() {
    // The explicit override is taken even when a venv interpreter exists.
    let r = resolve_python(Platform::Unix, "/i", Some("/opt/custom/python"), true);
    assert_eq!(r, "/opt/custom/python");
}

#[test]
fn venv_interpreter_wins_over_the_default() {
    let r = resolve_python(Platform::Unix, "/i", None, true);
    assert_eq!(r, "/i/.venv/bin/python");
}

#[test]
fn platform_default_interpreter_is_the_last_resort() {
    assert_eq!(resolve_python(Platform::Unix, "/i", None, false), "python3");
    assert_eq!(resolve_python(Platform::Windows, "C:\\i", None, false), "python");
}

#[test]
fn main_component_launches_its_script_with_the_resolved_interpreter() {
    let probe = LaunchProbe { entry_script_exists: true, ..probe_none() };
    let plan = build_component_command(Platform::Unix, "/i", "main", None, None, &probe).unwrap();
    assert_eq!(plan.program, "python3");
    assert_eq!(plan.args, vec!["bot.py".to_string()]);
    assert_eq!(plan.cwd, "/i/MaiBot");
}

#[test]
fn main_component_without_script_is_not_found() {
    let r = build_component_command(Platform::Unix, "/i", "main", None, None, &probe_none());
    match r {
        Err(AppError::NotFound(msg)) => {
            assert_eq!(msg, "launch script not found: /i/MaiBot/bot.py");
        }
        other => panic!("expected NotFound, got {:?}", other),
    }
}

#[test]
fn adapter_component_launches_its_script() {
    let probe = LaunchProbe { entry_script_exists: true, venv_python_exists: true, ..probe_none() };
    let plan =
        build_component_command(Platform::Unix, "/i", "napcat-ada", None, None, &probe).unwrap();
    assert_eq!(plan.program, "/i/.venv/bin/python");
    assert_eq!(plan.args, vec!["main.py".to_string()]);
    assert_eq!(plan.cwd, "/i/MaiBot-Napcat-Adapter");
}

#[test]
fn adapter_component_without_script_is_not_found() {
    let r = build_component_command(Platform::Unix, "/i", "napcat-ada", None, None, &probe_none());
    match r {
        Err(AppError::NotFound(msg)) => {
            assert_eq!(msg, "launch script not found: /i/MaiBot-Napcat-Adapter/main.py");
        }
        other => panic!("expected NotFound, got {:?}", other),
    }
}

#[test]
fn gateway_on_windows_prefers_the_user_launcher() {
    let probe = LaunchProbe { launcher_user_exists: true, launcher_exists: true, ..probe_none() };
    let plan =
        build_napcat_command(Platform::Windows, "C:\\i", None, &probe).unwrap();
    assert_eq!(plan.program, "cmd");
    assert_eq!(plan.args, vec!["/c".to_string(), "launcher-user.bat".to_string()]);
    assert_eq!(plan.cwd, "C:\\i\\NapCat");
}

#[test]
fn gateway_on_windows_falls_back_to_the_plain_launcher() {
    let probe = LaunchProbe { launcher_exists: true, ..probe_none() };
    let plan = build_napcat_command(Platform::Windows, "C:\\i", None, &probe).unwrap();
    assert_eq!(plan.args, vec!["/c".to_string(), "launcher.bat".to_string()]);
}

#[test]
fn gateway_on_windows_appends_the_account_as_a_flag() {
    let probe = LaunchProbe { launcher_user_exists: true, ..probe_none() };
    let plan =
        build_napcat_command(Platform::Windows, "C:\\i", Some("123456"), &probe).unwrap();
    assert_eq!(
        plan.args,
        vec![
            "/c".to_string(),
            "launcher-user.bat".to_string(),
            "-q".to_string(),
            "123456".to_string(),
        ]
    );
}

#[test]
fn gateway_on_windows_without_launcher_is_not_found() {
    let r = build_napcat_command(Platform::Windows, "C:\\i", None, &probe_none());
    match r {
        Err(AppError::NotFound(msg)) => {
            assert_eq!(msg, "launch script not found: C:\\i\\NapCat\\launcher-user.bat");
        }
        other => panic!("expected NotFound, got {:?}", other),
    }
}

#[test]
fn gateway_on_unix_runs_the_shell_script() {
    let probe = LaunchProbe { start_sh_exists: true, ..probe_none() };
    let plan = build_napcat_command(Platform::Unix, "/i", None, &probe).unwrap();
    assert_eq!(plan.program, "bash");
    assert_eq!(plan.args, vec!["start.sh".to_string()]);
    assert_eq!(plan.cwd, "/i/NapCat");
}

#[test]
fn gateway_on_unix_appends_the_account_positionally() {
    let probe = LaunchProbe { start_sh_exists: true, ..probe_none() };
    let plan = build_napcat_command(Platform::Unix, "/i", Some("123456"), &probe).unwrap();
    assert_eq!(plan.args, vec!["start.sh".to_string(), "123456".to_string()]);
}

#[test]
fn gateway_on_unix_without_script_is_not_found() {
    let r = build_napcat_command(Platform::Unix, "/i", None, &probe_none());
    match r {
        Err(AppError::NotFound(msg)) => {
            assert_eq!(msg, "launch script not found: /i/NapCat/start.sh");
        }
        other => panic!("expected NotFound, got {:?}", other),
    }
}

#[test]
fn gateway_through_the_component_resolver() {
    let probe = LaunchProbe { start_sh_exists: true, ..probe_none() };
    let plan =
        build_component_command(Platform::Unix, "/i", "napcat", None, Some("42"), &probe).unwrap();
    assert_eq!(plan.program, "bash");
    assert_eq!(plan.args, vec!["start.sh".to_string(), "42".to_string()]);
}

#[test]
fn unknown_component_is_invalid_input() {
    let r = build_component_command(Platform::Unix, "/i", "webui", None, None, &probe_none());
    match r {
        Err(AppError::InvalidInput(msg)) => {
            assert_eq!(msg, "unsupported component type: webui");
        }
        other => panic!("expected InvalidInput, got {:?}", other),
    }
}
