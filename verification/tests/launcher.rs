use runtime_supervisor::env::EnvironmentSet;
use runtime_supervisor::error::RuntimeError;
use runtime_supervisor::launcher::launch_plan;
use runtime_supervisor::launcher::log_path;
use runtime_supervisor::launcher::resolve_background_runner_launcher;
use runtime_supervisor::launcher::resolve_server_launcher;
use runtime_supervisor::launcher::ProcessSpec;
use runtime_supervisor::platform::Platform;
use runtime_supervisor::snapshot::FileSnapshot;

fn strings(items: &[&str]) -> Vec<String> {
    items.iter().map(|s| s.to_string()).collect()
}

fn snapshot(items: &[&str]) -> FileSnapshot {
    FileSnapshot::new(strings(items))
}

fn spec(executable: &str, args: &[&str], working_dir: &str, name: &str) -> ProcessSpec {
    ProcessSpec {
        executable: executable.to_string(),
        args: strings(args),
        working_dir: working_dir.to_string(),
        name: name.to_string(),
    }
}

#[test]
fn server_launcher_prefers_the_native_executable() {
    let present = snapshot(&["/s/server", "/s/python/python", "/s/app.py"]);
    assert_eq!(
        resolve_server_launcher("/s", &present, Platform::Unix),
        Ok(spec("/s/server", &[], "/s", "server"))
    );
}

#[test]
fn server_launcher_falls_back_to_the_interpreter() {
    let present = snapshot(&["/s/python/python", "/s/app.py"]);
    assert_eq!(
        resolve_server_launcher("/s", &present, Platform::Unix),
        Ok(spec("/s/python/python", &["-u", "/s/app.py"], "/s", "server"))
    );
}

#[test]
fn server_launcher_needs_interpreter_and_script_together() {
    let missing = Err(RuntimeError::MissingRuntimeAsset {
        launcher: Some("server".to_string()),
        paths: strings(&["/s/server", "/s/python/python", "/s/app.py"]),
    });
    assert_eq!(resolve_server_launcher("/s", &snapshot(&["/s/python/python"]), Platform::Unix), missing);
    assert_eq!(resolve_server_launcher("/s", &snapshot(&["/s/app.py"]), Platform::Unix), missing);
    assert_eq!(resolve_server_launcher("/s", &snapshot(&[]), Platform::Unix), missing);
}

#[test]
fn background_runner_launcher_tries_native_then_interpreter() {
    assert_eq!(
        resolve_background_runner_launcher(
            "C:\\s",
            &snapshot(&["C:\\s\\background_runner.exe"]),
            Platform::Windows
        ),
        Ok(spec("C:\\s\\background_runner.exe", &[], "C:\\s", "background_runner"))
    );
    assert_eq!(
        resolve_background_runner_launcher(
            "C:\\s",
            &snapshot(&["C:\\s\\python\\python.exe", "C:\\s\\background_runner.py"]),
            Platform::Windows
        ),
        Ok(spec(
            "C:\\s\\python\\python.exe",
            &["-u", "C:\\s\\background_runner.py"],
            "C:\\s",
            "background_runner"
        ))
    );
    assert_eq!(
        resolve_background_runner_launcher("/s", &snapshot(&["/s/server"]), Platform::Unix),
        Err(RuntimeError::MissingRuntimeAsset {
            launcher: Some("background_runner".to_string()),
            paths: strings(&["/s/background_runner", "/s/python/python", "/s/background_runner.py"]),
        })
    );
}

#[test]
fn log_path_names_service_and_stream() {
    assert_eq!(log_path("/d/logs", "server", "stdout", Platform::Unix), "/d/logs/server.stdout.log");
    assert_eq!(
        log_path("D:\\logs", "updater", "stderr", Platform::Windows),
        "D:\\logs\\updater.stderr.log"
    );
}

#[test]
fn launch_plan_carries_the_whole_environment_and_both_logs() {
    let mut env = EnvironmentSet::new();
    env.insert("A".to_string(), "1".to_string());
    let batch = spec("/r/batch/batch", &[], "/r/batch", "batch");
    let plan = launch_plan(&batch, &env, "/d/logs", Platform::Unix);
    assert_eq!(plan.spec, batch);
    assert_eq!(plan.env.pairs(), vec![("A".to_string(), "1".to_string())]);
    assert_eq!(plan.stdout_log, "/d/logs/batch.stdout.log");
    assert_eq!(plan.stderr_log, "/d/logs/batch.stderr.log");
    assert!(!plan.hide_window);
    assert!(launch_plan(&batch, &env, "D:\\logs", Platform::Windows).hide_window);
    assert_eq!(batch.duplicate(), batch);
}
