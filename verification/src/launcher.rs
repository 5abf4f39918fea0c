//! How each service is started: which program, with which arguments, where,
//! and where its output goes.

use vstd::prelude::*;
use vstd::string::StringExecFns;
use crate::env::EnvironmentSet;
use crate::error::outcome_view;
use crate::error::RuntimeError;
use crate::error::RuntimeErrorView;
use crate::paths::join;
use crate::paths::join_spec;
use crate::platform::exe_name;
use crate::platform::exe_name_spec;
use crate::platform::Platform;
use crate::snapshot::FileSnapshot;

verus! {

/// What to run for a service.
#[derive(Debug, PartialEq, Eq)]
pub struct ProcessSpec {
    /// The program to start.
    pub executable: String,
    /// Its arguments, in order.
    pub args: Vec<String>,
    /// The directory in which it runs.
    pub working_dir: String,
    /// The name under which the service is known and its logs are kept.
    pub name: String,
}

/// The mathematical value of a [`ProcessSpec`].
pub struct ProcessSpecView {
    pub executable: Seq<char>,
    pub args: Seq<Seq<char>>,
    pub working_dir: Seq<char>,
    pub name: Seq<char>,
}

impl View for ProcessSpec {
    type V = ProcessSpecView;

    open spec fn view(&self) -> ProcessSpecView {
        ProcessSpecView {
            executable: self.executable@,
            args: self.args.deep_view(),
            working_dir: self.working_dir@,
            name: self.name@,
        }
    }
}

impl DeepView for ProcessSpec {
    type V = ProcessSpecView;

    open spec fn deep_view(&self) -> ProcessSpecView {
        self@
    }
}

impl ProcessSpec {
    /// A copy of this specification.
    pub fn duplicate(&self) -> (copy: ProcessSpec)
        ensures
            copy@ == self@,
    {
        let args = self.args.clone();
        assert(args.deep_view() == self.args.deep_view());
        ProcessSpec {
            executable: self.executable.clone(),
            args,
            working_dir: self.working_dir.clone(),
            name: self.name.clone(),
        }
    }
}

/// The two ways in which a service may ship.
pub enum LauncherView {
    /// As a program of its own.
    NativeExecutable { executable: Seq<char> },
    /// As a script for the bundled interpreter.
    InterpretedScript { interpreter: Seq<char>, script: Seq<char> },
}

/// Where the service's own program would lie in `server_dir`.
pub open spec fn native_path(server_dir: Seq<char>, program: Seq<char>, platform: Platform) -> Seq<
    char,
> {
    join_spec(server_dir, exe_name_spec(program, platform), platform)
}

/// Where the bundled interpreter would lie in `server_dir`.
pub open spec fn interpreter_path(server_dir: Seq<char>, platform: Platform) -> Seq<char> {
    join_spec(join_spec(server_dir, "python"@, platform), exe_name_spec("python"@, platform), platform)
}

/// The way to start a service, going by what is present: its own program
/// where that exists; otherwise the interpreter with the script, where both
/// exist; otherwise none.
pub open spec fn launcher_choice(
    server_dir: Seq<char>,
    program: Seq<char>,
    script: Seq<char>,
    present: Set<Seq<char>>,
    platform: Platform,
) -> Option<LauncherView> {
    let native = native_path(server_dir, program, platform);
    let interpreter = interpreter_path(server_dir, platform);
    let entry = join_spec(server_dir, script, platform);
    if present.contains(native) {
        Some(LauncherView::NativeExecutable { executable: native })
    } else if present.contains(interpreter) && present.contains(entry) {
        Some(LauncherView::InterpretedScript { interpreter, script: entry })
    } else {
        None
    }
}

/// What a launcher comes to when it runs in `working_dir` under `name`: the
/// program without arguments, or the interpreter, unbuffered, with the script.
pub open spec fn launcher_spec(launcher: LauncherView, working_dir: Seq<char>, name: Seq<char>) -> ProcessSpecView {
    match launcher {
        LauncherView::NativeExecutable { executable } => ProcessSpecView {
            executable,
            args: Seq::empty(),
            working_dir,
            name,
        },
        LauncherView::InterpretedScript { interpreter, script } => ProcessSpecView {
            executable: interpreter,
            args: seq!["-u"@, script],
            working_dir,
            name,
        },
    }
}

/// The three places that were looked at before a launcher was given up.
pub open spec fn launcher_paths(
    server_dir: Seq<char>,
    program: Seq<char>,
    script: Seq<char>,
    platform: Platform,
) -> Seq<Seq<char>> {
    seq![
        native_path(server_dir, program, platform),
        interpreter_path(server_dir, platform),
        join_spec(server_dir, script, platform),
    ]
}

/// How a service that lives in the server's directory is started, or which
/// files were missed.
pub open spec fn resolved_launcher(
    server_dir: Seq<char>,
    program: Seq<char>,
    script: Seq<char>,
    present: Set<Seq<char>>,
    platform: Platform,
) -> Result<ProcessSpecView, RuntimeErrorView> {
    match launcher_choice(server_dir, program, script, present, platform) {
        Some(launcher) => Ok(launcher_spec(launcher, server_dir, program)),
        None => Err(
            RuntimeErrorView::MissingRuntimeAsset {
                launcher: Some(program),
                paths: launcher_paths(server_dir, program, script, platform),
            },
        ),
    }
}

/// Resolves the launcher of the service `program`, whose script is `script`.
fn resolve_launcher(
    server_dir: &str,
    program: &str,
    script: &str,
    snapshot: &FileSnapshot,
    platform: Platform,
) -> (found: Result<ProcessSpec, RuntimeError>)
    ensures
        outcome_view(found) == resolved_launcher(server_dir@, program@, script@, snapshot@, platform),
{
    let native = join(server_dir, exe_name(program, platform).as_str(), platform);
    if snapshot.holds(native.as_str()) {
        let args: Vec<String> = Vec::new();
        assert(args.deep_view() == Seq::<Seq<char>>::empty());
        return Ok(
            ProcessSpec {
                executable: native,
                args,
                working_dir: String::from_str(server_dir),
                name: String::from_str(program),
            },
        );
    }
    let python_dir = join(server_dir, "python", platform);
    let interpreter = join(python_dir.as_str(), exe_name("python", platform).as_str(), platform);
    let entry = join(server_dir, script, platform);
    if snapshot.holds(interpreter.as_str()) && snapshot.holds(entry.as_str()) {
        let mut args: Vec<String> = Vec::new();
        args.push(String::from_str("-u"));
        args.push(entry);
        assert(args.deep_view() == seq!["-u"@, join_spec(server_dir@, script@, platform)]);
        return Ok(
            ProcessSpec {
                executable: interpreter,
                args,
                working_dir: String::from_str(server_dir),
                name: String::from_str(program),
            },
        );
    }
    let mut paths: Vec<String> = Vec::new();
    paths.push(native);
    paths.push(interpreter);
    paths.push(entry);
    assert(paths.deep_view() == launcher_paths(server_dir@, program@, script@, platform));
    Err(RuntimeError::MissingRuntimeAsset { launcher: Some(String::from_str(program)), paths })
}

/// How the background task runner is started: its own program
/// `background_runner` where the bundle has one, else the bundled
/// interpreter with `background_runner.py`. Where neither can be had, the
/// error names the three files that were missed.
pub fn resolve_background_runner_launcher(
    server_dir: &str,
    snapshot: &FileSnapshot,
    platform: Platform,
) -> (found: Result<ProcessSpec, RuntimeError>)
    ensures
        outcome_view(found) == resolved_launcher(
            server_dir@,
            "background_runner"@,
            "background_runner.py"@,
            snapshot@,
            platform,
        ),
{
    resolve_launcher(server_dir, "background_runner", "background_runner.py", snapshot, platform)
}

/// How the API server is started: its own program `server` where the bundle
/// has one, else the bundled interpreter with `app.py`. Where neither can be
/// had, the error names the three files that were missed.
pub fn resolve_server_launcher(server_dir: &str, snapshot: &FileSnapshot, platform: Platform) -> (found:
    Result<ProcessSpec, RuntimeError>)
    ensures
        outcome_view(found) == resolved_launcher(server_dir@, "server"@, "app.py"@, snapshot@, platform),
{
    resolve_launcher(server_dir, "server", "app.py", snapshot, platform)
}

/// The log file of the service `name` for the stream `stream`.
pub open spec fn log_path_spec(
    logs_dir: Seq<char>,
    name: Seq<char>,
    stream: Seq<char>,
    platform: Platform,
) -> Seq<char> {
    join_spec(logs_dir, name + "."@ + stream + ".log"@, platform)
}

/// The log file of the service `name` for the stream `stream`:
/// `name.stream.log` in `logs_dir`.
pub fn log_path(logs_dir: &str, name: &str, stream: &str, platform: Platform) -> (path: String)
    ensures
        path@ == log_path_spec(logs_dir@, name@, stream@, platform),
{
    let mut file = String::from_str(name);
    file.append(".");
    file.append(stream);
    file.append(".log");
    join(logs_dir, file.as_str(), platform)
}

/// All that a driver needs to start a child.
#[derive(Debug)]
pub struct LaunchPlan {
    /// What to run.
    pub spec: ProcessSpec,
    /// The whole environment of the child: it inherits nothing else.
    pub env: EnvironmentSet,
    /// The file to which the child's standard output is appended.
    pub stdout_log: String,
    /// The file to which the child's standard error is appended.
    pub stderr_log: String,
    /// Whether the platform would open a terminal window for the child,
    /// which is to be suppressed.
    pub hide_window: bool,
}

/// The mathematical value of a [`LaunchPlan`].
pub struct LaunchPlanView {
    pub spec: ProcessSpecView,
    pub env: Map<Seq<char>, Seq<char>>,
    pub stdout_log: Seq<char>,
    pub stderr_log: Seq<char>,
    pub hide_window: bool,
}

impl View for LaunchPlan {
    type V = LaunchPlanView;

    open spec fn view(&self) -> LaunchPlanView {
        LaunchPlanView {
            spec: self.spec@,
            env: self.env@,
            stdout_log: self.stdout_log@,
            stderr_log: self.stderr_log@,
            hide_window: self.hide_window,
        }
    }
}

/// The plan for starting `spec` with the environment `env` and its logs in
/// `logs_dir`.
pub open spec fn launch_plan_spec(
    spec: ProcessSpecView,
    env: Map<Seq<char>, Seq<char>>,
    logs_dir: Seq<char>,
    platform: Platform,
) -> LaunchPlanView {
    LaunchPlanView {
        spec,
        env,
        stdout_log: log_path_spec(logs_dir, spec.name, "stdout"@, platform),
        stderr_log: log_path_spec(logs_dir, spec.name, "stderr"@, platform),
        hide_window: platform == Platform::Windows,
    }
}

/// The plan for starting `spec`: the child gets exactly `env`, its standard
/// input is closed, its output is appended to `name.stdout.log` and
/// `name.stderr.log` in `logs_dir`, and on Windows no terminal window opens.
pub fn launch_plan(spec: &ProcessSpec, env: &EnvironmentSet, logs_dir: &str, platform: Platform) -> (plan:
    LaunchPlan)
    ensures
        plan@ == launch_plan_spec(spec@, env@, logs_dir@, platform),
{
    LaunchPlan {
        spec: spec.duplicate(),
        env: env.duplicate(),
        stdout_log: log_path(logs_dir, spec.name.as_str(), "stdout", platform),
        stderr_log: log_path(logs_dir, spec.name.as_str(), "stderr", platform),
        hide_window: match platform {
            Platform::Windows => true,
            Platform::Unix => false,
        },
    }
}

} // verus!
