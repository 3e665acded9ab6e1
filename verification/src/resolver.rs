//! The command resolver: from an instance's filesystem root and a
//! component name to the executable, arguments and working directory to
//! launch.
//!
//! The resolver is a pure function.  The only facts it needs from the
//! outside world are whether a handful of files exist; the caller probes
//! the paths named by the path functions here and hands the answers in as
//! a [`LaunchProbe`], so every launch rule — including the interpreter
//! resolution order and the per-platform gateway conventions — is decided,
//! and verified, here.

use vstd::prelude::*;
use crate::errors::AppError;
use crate::strutil::{str_eq, concat2, concat3};

verus! {

/// The launch conventions differ between Windows and the Unix-likes; the
/// caller states once, at the boundary, which world it is in.
#[derive(Clone, Copy, Debug, PartialEq, Eq, Structural)]
pub enum Platform {
    /// Batch launchers, `python.exe`, backslash separators.
    Windows,
    /// Shell launchers, `python3`, slash separators.
    Unix,
}

/// The platform's path separator, as a one-character sequence.
pub open spec fn sep_seq(p: Platform) -> Seq<char> {
    match p {
        Platform::Windows => "\\"@,
        Platform::Unix => "/"@,
    }
}

/// The platform's path separator.
pub fn path_sep(p: Platform) -> (r: &'static str)
    ensures
        r@ == sep_seq(p),
{
    match p {
        Platform::Windows => "\\",
        Platform::Unix => "/",
    }
}

/// `base` and `name` joined by the platform's separator.
pub open spec fn joined(p: Platform, base: Seq<char>, name: Seq<char>) -> Seq<char> {
    base + sep_seq(p) + name
}

/// Joins a directory and an entry name with the platform's separator.
pub fn path_join(p: Platform, base: &str, name: &str) -> (r: String)
    ensures
        r@ == joined(p, base@, name@),
{
    concat3(base, path_sep(p), name)
}

/// The main engine's working directory under the instance root.
pub open spec fn main_dir_view(p: Platform, root: Seq<char>) -> Seq<char> {
    joined(p, root, "MaiBot"@)
}

/// The main engine's entry script.
pub open spec fn main_script_view(p: Platform, root: Seq<char>) -> Seq<char> {
    joined(p, main_dir_view(p, root), "bot.py"@)
}

/// The protocol adapter's working directory under the instance root.
pub open spec fn adapter_dir_view(p: Platform, root: Seq<char>) -> Seq<char> {
    joined(p, root, "MaiBot-Napcat-Adapter"@)
}

/// The protocol adapter's entry script.
pub open spec fn adapter_script_view(p: Platform, root: Seq<char>) -> Seq<char> {
    joined(p, adapter_dir_view(p, root), "main.py"@)
}

/// The messaging gateway's working directory under the instance root.
pub open spec fn napcat_dir_view(p: Platform, root: Seq<char>) -> Seq<char> {
    joined(p, root, "NapCat"@)
}

/// The instance's virtual environment directory.
pub open spec fn venv_dir_view(p: Platform, root: Seq<char>) -> Seq<char> {
    joined(p, root, ".venv"@)
}

/// The interpreter inside a virtual environment directory.
pub open spec fn venv_python_view(p: Platform, venv_dir: Seq<char>) -> Seq<char> {
    match p {
        Platform::Windows => joined(p, joined(p, venv_dir, "Scripts"@), "python.exe"@),
        Platform::Unix => joined(p, joined(p, venv_dir, "bin"@), "python"@),
    }
}

/// The pip executable inside a virtual environment directory.
pub open spec fn venv_pip_view(p: Platform, venv_dir: Seq<char>) -> Seq<char> {
    match p {
        Platform::Windows => joined(p, joined(p, venv_dir, "Scripts"@), "pip.exe"@),
        Platform::Unix => joined(p, joined(p, venv_dir, "bin"@), "pip"@),
    }
}

/// Path of the Python interpreter inside a virtual environment.
pub fn get_venv_python(p: Platform, venv_dir: &str) -> (r: String)
    ensures
        r@ == venv_python_view(p, venv_dir@),
{
    match p {
        Platform::Windows => path_join(p, path_join(p, venv_dir, "Scripts").as_str(), "python.exe"),
        Platform::Unix => path_join(p, path_join(p, venv_dir, "bin").as_str(), "python"),
    }
}

/// Path of the pip executable inside a virtual environment.
pub fn get_venv_pip(p: Platform, venv_dir: &str) -> (r: String)
    ensures
        r@ == venv_pip_view(p, venv_dir@),
{
    match p {
        Platform::Windows => path_join(p, path_join(p, venv_dir, "Scripts").as_str(), "pip.exe"),
        Platform::Unix => path_join(p, path_join(p, venv_dir, "bin").as_str(), "pip"),
    }
}

/// The main engine's entry script path, for the caller to probe.
pub fn main_script_path(p: Platform, instance_path: &str) -> (r: String)
    ensures
        r@ == main_script_view(p, instance_path@),
{
    path_join(p, path_join(p, instance_path, "MaiBot").as_str(), "bot.py")
}

/// The protocol adapter's entry script path, for the caller to probe.
pub fn adapter_script_path(p: Platform, instance_path: &str) -> (r: String)
    ensures
        r@ == adapter_script_view(p, instance_path@),
{
    path_join(p, path_join(p, instance_path, "MaiBot-Napcat-Adapter").as_str(), "main.py")
}

/// The interpreter path inside the instance's virtual environment, for
/// the caller to probe.
pub fn instance_venv_python_path(p: Platform, instance_path: &str) -> (r: String)
    ensures
        r@ == venv_python_view(p, venv_dir_view(p, instance_path@)),
{
    get_venv_python(p, path_join(p, instance_path, ".venv").as_str())
}

/// Results of the existence checks the resolver depends on.  The caller
/// probes the paths named by this module's path functions and reports
/// what it found; the resolver itself performs no I/O.
#[derive(Clone, Copy, Debug)]
pub struct LaunchProbe {
    /// Whether the chosen component's entry script exists (`bot.py` for
    /// the main engine, `main.py` for the adapter).
    pub entry_script_exists: bool,
    /// Whether the interpreter inside the instance's virtual environment
    /// exists.
    pub venv_python_exists: bool,
    /// Whether `launcher-user.bat` exists in the gateway directory.
    pub launcher_user_exists: bool,
    /// Whether `launcher.bat` exists in the gateway directory.
    pub launcher_exists: bool,
    /// Whether `start.sh` exists in the gateway directory.
    pub start_sh_exists: bool,
}

/// A resolved launch: the executable, its arguments and the working
/// directory to spawn it in.
#[derive(Debug)]
pub struct LaunchPlan {
    /// The executable to spawn.
    pub program: String,
    /// The arguments, in order.
    pub args: Vec<String>,
    /// The working directory.
    pub cwd: String,
}

/// The view of an optional borrowed string.
pub open spec fn opt_view(o: Option<&str>) -> Option<Seq<char>> {
    match o {
        Some(s) => Some(s@),
        None => None,
    }
}

/// The interpreter an interpreter-driven component launches with.  The
/// resolution order is part of the contract: an explicit override wins,
/// then an interpreter found in the instance's virtual environment, then
/// the platform's default interpreter name.
pub open spec fn resolved_python(p: Platform, root: Seq<char>, python_path: Option<Seq<char>>, venv_python_exists: bool) -> Seq<char> {
    if python_path is Some {
        python_path->0
    } else if venv_python_exists {
        venv_python_view(p, venv_dir_view(p, root))
    } else if p is Windows {
        "python"@
    } else {
        "python3"@
    }
}

/// Picks the Python interpreter for an instance: the caller's explicit
/// override first, else the virtual-environment interpreter when the
/// probe found one, else the platform default.
pub fn resolve_python(p: Platform, instance_path: &str, python_path: Option<&str>, venv_python_exists: bool) -> (r: String)
    ensures
        r@ == resolved_python(p, instance_path@, opt_view(python_path), venv_python_exists),
{
    match python_path {
        Some(pp) => pp.to_owned(),
        None => {
            if venv_python_exists {
                instance_venv_python_path(p, instance_path)
            } else {
                match p {
                    Platform::Windows => "python".to_owned(),
                    Platform::Unix => "python3".to_owned(),
                }
            }
        }
    }
}

/// Message of the `NotFound` error for a missing launch script.
pub open spec fn script_missing_msg(path: Seq<char>) -> Seq<char> {
    "launch script not found: "@ + path
}

/// Message of the `InvalidInput` error for an unknown component key.
pub open spec fn bad_component_msg(component: Seq<char>) -> Seq<char> {
    "unsupported component type: "@ + component
}

/// Appends one argument, tracking the argument list at the level of
/// character sequences.
fn push_arg(args: &mut Vec<String>, s: String)
    ensures
        final(args).deep_view() == old(args).deep_view().push(s@),
{
    let ghost pre = args@;
    proof {
        assert(args.deep_view().len() == pre.len());
    }
    args.push(s);
    proof {
        assert forall|m: int| 0 <= m < args@.len()
            implies args.deep_view()[m] == old(args).deep_view().push(s@)[m] by {
            assert(args.deep_view()[m] == args@[m].deep_view());
            if m < pre.len() {
                assert(args@[m] == pre[m]);
            }
        }
        assert(args.deep_view() =~= old(args).deep_view().push(s@));
    }
}

/// The gateway's argument list on Windows: `/c`, the chosen batch
/// launcher, and — when an account id is supplied — the `-q` flag with
/// the account.
pub open spec fn napcat_windows_args(launcher: Seq<char>, qq: Option<Seq<char>>) -> Seq<Seq<char>> {
    match qq {
        Some(q) => seq!["/c"@, launcher, "-q"@, q],
        None => seq!["/c"@, launcher],
    }
}

/// The gateway's argument list on Unix: the shell script, and — when an
/// account id is supplied — the account as a positional argument.
pub open spec fn napcat_unix_args(qq: Option<Seq<char>>) -> Seq<Seq<char>> {
    match qq {
        Some(q) => seq!["start.sh"@, q],
        None => seq!["start.sh"@],
    }
}

/// Builds the messaging gateway's launch plan.
///
/// On Windows a batch launcher is chosen — `launcher-user.bat` when
/// present, else `launcher.bat` — and run through `cmd /c`, with the
/// optional account id appended as a `-q` flag.  On Unix the `start.sh`
/// script is run through `bash`, with the account id appended as a
/// positional argument.  Absence of the expected launcher is a
/// `NotFound` error naming the missing path.
pub fn build_napcat_command(p: Platform, instance_path: &str, qq_account: Option<&str>, probe: &LaunchProbe) -> (r: Result<LaunchPlan, AppError>)
    ensures
        p is Windows && (probe.launcher_user_exists || probe.launcher_exists)
            ==> (r matches Ok(plan) && {
                &&& plan.program@ == "cmd"@
                &&& plan.args.deep_view() == napcat_windows_args(
                    if probe.launcher_user_exists { "launcher-user.bat"@ } else { "launcher.bat"@ },
                    opt_view(qq_account),
                )
                &&& plan.cwd@ == napcat_dir_view(p, instance_path@)
            }),
        p is Windows && !probe.launcher_user_exists && !probe.launcher_exists
            ==> (r matches Err(AppError::NotFound(m)) && m@ == script_missing_msg(
                joined(p, napcat_dir_view(p, instance_path@), "launcher-user.bat"@))),
        p is Unix && probe.start_sh_exists
            ==> (r matches Ok(plan) && {
                &&& plan.program@ == "bash"@
                &&& plan.args.deep_view() == napcat_unix_args(opt_view(qq_account))
                &&& plan.cwd@ == napcat_dir_view(p, instance_path@)
            }),
        p is Unix && !probe.start_sh_exists
            ==> (r matches Err(AppError::NotFound(m)) && m@ == script_missing_msg(
                joined(p, napcat_dir_view(p, instance_path@), "start.sh"@))),
{
    let napcat_dir = path_join(p, instance_path, "NapCat");
    match p {
        Platform::Windows => {
            let launcher = if probe.launcher_user_exists {
                "launcher-user.bat"
            } else if probe.launcher_exists {
                "launcher.bat"
            } else {
                let missing = path_join(p, napcat_dir.as_str(), "launcher-user.bat");
                return Err(AppError::NotFound(
                    concat2("launch script not found: ", missing.as_str())));
            };
            let mut args: Vec<String> = Vec::new();
            proof {
                assert(args.deep_view() =~= Seq::<Seq<char>>::empty());
            }
            push_arg(&mut args, "/c".to_owned());
            push_arg(&mut args, launcher.to_owned());
            if let Some(account) = qq_account {
                push_arg(&mut args, "-q".to_owned());
                push_arg(&mut args, account.to_owned());
                proof {
                    assert(args.deep_view() =~= napcat_windows_args(launcher@, opt_view(qq_account)));
                }
            } else {
                proof {
                    assert(args.deep_view() =~= napcat_windows_args(launcher@, opt_view(qq_account)));
                }
            }
            Ok(LaunchPlan { program: "cmd".to_owned(), args, cwd: napcat_dir })
        }
        Platform::Unix => {
            if !probe.start_sh_exists {
                let missing = path_join(p, napcat_dir.as_str(), "start.sh");
                return Err(AppError::NotFound(
                    concat2("launch script not found: ", missing.as_str())));
            }
            let mut args: Vec<String> = Vec::new();
            proof {
                assert(args.deep_view() =~= Seq::<Seq<char>>::empty());
            }
            push_arg(&mut args, "start.sh".to_owned());
            if let Some(account) = qq_account {
                push_arg(&mut args, account.to_owned());
                proof {
                    assert(args.deep_view() =~= napcat_unix_args(opt_view(qq_account)));
                }
            } else {
                proof {
                    assert(args.deep_view() =~= napcat_unix_args(opt_view(qq_account)));
                }
            }
            Ok(LaunchPlan { program: "bash".to_owned(), args, cwd: napcat_dir })
        }
    }
}

/// Builds the launch plan for one component of an instance.
///
/// The main engine and the protocol adapter run their entry script with
/// the interpreter [`resolve_python`] picks, from their fixed directory
/// under the instance root; a missing entry script is a `NotFound` error
/// naming the path.  The messaging gateway follows
/// [`build_napcat_command`].  Any other component key is rejected as
/// `InvalidInput`.
pub fn build_component_command(p: Platform, instance_path: &str, component: &str, python_path: Option<&str>, qq_account: Option<&str>, probe: &LaunchProbe) -> (r: Result<LaunchPlan, AppError>)
    ensures
        component@ == "main"@ && probe.entry_script_exists
            ==> (r matches Ok(plan) && {
                &&& plan.program@ == resolved_python(
                    p, instance_path@, opt_view(python_path), probe.venv_python_exists)
                &&& plan.args.deep_view() == seq!["bot.py"@]
                &&& plan.cwd@ == main_dir_view(p, instance_path@)
            }),
        component@ == "main"@ && !probe.entry_script_exists
            ==> (r matches Err(AppError::NotFound(m))
                && m@ == script_missing_msg(main_script_view(p, instance_path@))),
        component@ == "napcat-ada"@ && probe.entry_script_exists
            ==> (r matches Ok(plan) && {
                &&& plan.program@ == resolved_python(
                    p, instance_path@, opt_view(python_path), probe.venv_python_exists)
                &&& plan.args.deep_view() == seq!["main.py"@]
                &&& plan.cwd@ == adapter_dir_view(p, instance_path@)
            }),
        component@ == "napcat-ada"@ && !probe.entry_script_exists
            ==> (r matches Err(AppError::NotFound(m))
                && m@ == script_missing_msg(adapter_script_view(p, instance_path@))),
        component@ == "napcat"@ && p is Windows
            && (probe.launcher_user_exists || probe.launcher_exists)
            ==> (r matches Ok(plan) && {
                &&& plan.program@ == "cmd"@
                &&& plan.args.deep_view() == napcat_windows_args(
                    if probe.launcher_user_exists { "launcher-user.bat"@ } else { "launcher.bat"@ },
                    opt_view(qq_account),
                )
                &&& plan.cwd@ == napcat_dir_view(p, instance_path@)
            }),
        component@ == "napcat"@ && p is Windows
            && !probe.launcher_user_exists && !probe.launcher_exists
            ==> (r matches Err(AppError::NotFound(m)) && m@ == script_missing_msg(
                joined(p, napcat_dir_view(p, instance_path@), "launcher-user.bat"@))),
        component@ == "napcat"@ && p is Unix && probe.start_sh_exists
            ==> (r matches Ok(plan) && {
                &&& plan.program@ == "bash"@
                &&& plan.args.deep_view() == napcat_unix_args(opt_view(qq_account))
                &&& plan.cwd@ == napcat_dir_view(p, instance_path@)
            }),
        component@ == "napcat"@ && p is Unix && !probe.start_sh_exists
            ==> (r matches Err(AppError::NotFound(m)) && m@ == script_missing_msg(
                joined(p, napcat_dir_view(p, instance_path@), "start.sh"@))),
        component@ != "main"@ && component@ != "napcat"@ && component@ != "napcat-ada"@
            ==> (r matches Err(AppError::InvalidInput(m))
                && m@ == bad_component_msg(component@)),
{
    proof {
        reveal_strlit("main");
        reveal_strlit("napcat");
        reveal_strlit("napcat-ada");
    }
    if str_eq(component, "main") {
        proof {
            assert("main"@.len() == 4);
            assert("napcat-ada"@.len() == 10);
            assert(component@ != "napcat-ada"@);
            assert(component@ != "napcat"@);
        }
        let cwd = path_join(p, instance_path, "MaiBot");
        if !probe.entry_script_exists {
            let missing = path_join(p, cwd.as_str(), "bot.py");
            return Err(AppError::NotFound(
                concat2("launch script not found: ", missing.as_str())));
        }
        let python = resolve_python(p, instance_path, python_path, probe.venv_python_exists);
        let mut args: Vec<String> = Vec::new();
        proof {
            assert(args.deep_view() =~= Seq::<Seq<char>>::empty());
        }
        push_arg(&mut args, "bot.py".to_owned());
        proof {
            assert(args.deep_view() =~= seq!["bot.py"@]);
        }
        Ok(LaunchPlan { program: python, args, cwd })
    } else if str_eq(component, "napcat") {
        proof {
            assert("napcat"@.len() == 6);
            assert("napcat-ada"@.len() == 10);
            assert("main"@.len() == 4);
            assert(component@ != "napcat-ada"@);
            assert(component@ != "main"@);
        }
        build_napcat_command(p, instance_path, qq_account, probe)
    } else if str_eq(component, "napcat-ada") {
        proof {
            assert("napcat"@.len() == 6);
            assert("napcat-ada"@.len() == 10);
            assert("main"@.len() == 4);
            assert(component@ != "napcat"@);
            assert(component@ != "main"@);
        }
        let cwd = path_join(p, instance_path, "MaiBot-Napcat-Adapter");
        if !probe.entry_script_exists {
            let missing = path_join(p, cwd.as_str(), "main.py");
            return Err(AppError::NotFound(
                concat2("launch script not found: ", missing.as_str())));
        }
        let python = resolve_python(p, instance_path, python_path, probe.venv_python_exists);
        let mut args: Vec<String> = Vec::new();
        proof {
            assert(args.deep_view() =~= Seq::<Seq<char>>::empty());
        }
        push_arg(&mut args, "main.py".to_owned());
        proof {
            assert(args.deep_view() =~= seq!["main.py"@]);
        }
        Ok(LaunchPlan { program: python, args, cwd })
    } else {
        Err(AppError::InvalidInput(
            concat2("unsupported component type: ", component)))
    }
}

} // verus!
