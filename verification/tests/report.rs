use runtime_supervisor::error::Endpoint;
use runtime_supervisor::error::EnvLineFault;
use runtime_supervisor::error::ExitReport;
use runtime_supervisor::error::FsOperation;
use runtime_supervisor::error::RuntimeError;
use runtime_supervisor::opener::browser_command;
use runtime_supervisor::opener::file_manager_command;
use runtime_supervisor::opener::Desktop;
use runtime_supervisor::opener::OpenCommand;
use runtime_supervisor::report::bootstrap_error_script;
use runtime_supervisor::report::build_bootstrap_user_message;
use runtime_supervisor::report::decimal;
use runtime_supervisor::report::error_script;
use runtime_supervisor::report::message;
use runtime_supervisor::report::script_for;

const HEAD: &str = "(function() {\n  const msg = ";
const TAIL: &str = ";\n  alert(msg);\n  const title = document.querySelector('.title');\n  const desc = document.querySelector('.desc');\n  if (title) title.innerText = 'PT Nexus 启动自检失败';\n  if (desc) {\n    desc.style.whiteSpace = 'pre-wrap';\n    desc.style.textAlign = 'left';\n    desc.innerText = msg;\n  }\n})();";

fn command(program: &str, args: &[&str], hide_window: bool) -> Option<OpenCommand> {
    Some(OpenCommand {
        program: program.to_string(),
        args: args.iter().map(|a| a.to_string()).collect(),
        hide_window,
    })
}

#[test]
fn user_message_names_the_logs_and_the_error() {
    assert_eq!(
        build_bootstrap_user_message(Some("C:\\data"), "端口 5275 被占用"),
        "启动失败，请按以下路径自检：\n\n1) 主错误日志：C:\\data\\bootstrap-error.log\n2) 服务日志目录：C:\\data\\logs\\\n   - background_runner.stderr.log\n   - server.stderr.log\n   - batch.stderr.log\n   - updater.stderr.log\n\n错误详情：\n端口 5275 被占用"
    );
}

#[test]
fn user_message_says_so_when_the_data_directory_is_unknown() {
    let message = build_bootstrap_user_message(None, "x");
    assert!(message.contains("1) 主错误日志：<无法解析应用数据目录>\\bootstrap-error.log\n"));
    assert!(message.ends_with("错误详情：\nx"));
}

#[test]
fn error_script_embeds_the_expression_between_head_and_tail() {
    assert_eq!(error_script("\"hi\""), format!("{}\"hi\"{}", HEAD, TAIL));
    assert_eq!(error_script(""), format!("{}{}", HEAD, TAIL));
}

#[test]
fn script_for_falls_back_to_a_fixed_message() {
    assert_eq!(script_for::<()>(Ok("\"m\"".to_string())), format!("{}\"m\"{}", HEAD, TAIL));
    assert_eq!(
        script_for(Err(())),
        format!("{}\"启动失败，请查看 bootstrap-error.log 和 logs/*.stderr.log\"{}", HEAD, TAIL)
    );
}

#[test]
fn bootstrap_error_script_hands_the_message_over_as_json() {
    assert_eq!(
        bootstrap_error_script("a \"quoted\"\nline\\"),
        format!("{}\"a \\\"quoted\\\"\\nline\\\\\"{}", HEAD, TAIL)
    );
    assert_eq!(bootstrap_error_script("plain"), format!("{}\"plain\"{}", HEAD, TAIL));
    assert_eq!(bootstrap_error_script("启动"), format!("{}\"启动\"{}", HEAD, TAIL));
}

#[test]
fn browser_command_depends_on_the_desktop() {
    let url = "https://example.org/a?b=c";
    assert_eq!(browser_command(url, Desktop::Windows), command("cmd", &["/C", "start", "", url], true));
    assert_eq!(browser_command(url, Desktop::MacOs), command("open", &[url], false));
    assert_eq!(browser_command(url, Desktop::Linux), command("xdg-open", &[url], false));
    assert_eq!(browser_command(url, Desktop::Other), None);
}

#[test]
fn file_manager_command_depends_on_the_desktop() {
    assert_eq!(file_manager_command("C:\\d", Desktop::Windows), command("explorer", &["C:\\d"], false));
    assert_eq!(file_manager_command("/d", Desktop::MacOs), command("open", &["/d"], false));
    assert_eq!(file_manager_command("/d", Desktop::Linux), command("xdg-open", &["/d"], false));
    assert_eq!(file_manager_command("/d", Desktop::Other), None);
}

fn strings(items: &[&str]) -> Vec<String> {
    items.iter().map(|s| s.to_string()).collect()
}

fn exited(endpoint: Option<Endpoint>, tail: &str) -> RuntimeError {
    RuntimeError::ProcessExitedEarly {
        name: "server".to_string(),
        status: ExitReport { code: Some(1), description: "exit status: 1".to_string() },
        endpoint,
        stderr_log: "/d/logs/server.stderr.log".to_string(),
        stderr_tail: tail.to_string(),
    }
}

fn filesystem(operation: FsOperation) -> RuntimeError {
    RuntimeError::FilesystemError {
        operation,
        path: "/d/x".to_string(),
        detail: "denied".to_string(),
    }
}

#[test]
fn decimal_writes_numbers_without_leading_zeros() {
    for n in [0u64, 1, 9, 10, 11, 99, 100, 5274, 65535, 1_000_000, u64::MAX] {
        assert_eq!(decimal(n), n.to_string());
    }
}

#[test]
fn message_lists_every_checked_root() {
    assert_eq!(
        message(&RuntimeError::RuntimeRootNotFound { checked: strings(&["/a", "/b"]) }, ""),
        "未找到可用运行目录。已检查: \n- /a\n- /b\n\n支持两种布局：\n1) <安装目录>/_up_/runtime/{server,batch,updater}\n2) <安装目录>/{server,batch,updater}"
    );
    assert_eq!(
        message(&RuntimeError::RuntimeRootNotFound { checked: Vec::new() }, ""),
        "未找到可用运行目录。已检查: \n\n支持两种布局：\n1) <安装目录>/_up_/runtime/{server,batch,updater}\n2) <安装目录>/{server,batch,updater}"
    );
}

#[test]
fn message_names_the_missing_file_or_the_launcher() {
    assert_eq!(
        message(
            &RuntimeError::MissingRuntimeAsset { launcher: None, paths: strings(&["/r/batch/batch"]) },
            ""
        ),
        "缺少运行文件: /r/batch/batch"
    );
    assert_eq!(
        message(
            &RuntimeError::MissingRuntimeAsset {
                launcher: Some("background_runner".to_string()),
                paths: strings(&["/s/background_runner", "/s/python/python", "/s/background_runner.py"]),
            },
            ""
        ),
        "未找到 background_runner 启动入口：/s/background_runner 或 /s/python/python + /s/background_runner.py"
    );
    assert_eq!(
        message(
            &RuntimeError::MissingRuntimeAsset {
                launcher: Some("server".to_string()),
                paths: strings(&["/a", "/b"]),
            },
            ""
        ),
        "缺少运行文件: /a, /b"
    );
    assert_eq!(
        message(&RuntimeError::MissingRuntimeAsset { launcher: None, paths: Vec::new() }, ""),
        "缺少运行文件: "
    );
}

#[test]
fn message_names_the_busy_port_and_the_failed_executable() {
    assert_eq!(
        message(&RuntimeError::PortInUse { port: 5275 }, ""),
        "端口 5275 被占用，请先释放后再启动应用。"
    );
    assert_eq!(
        message(
            &RuntimeError::SpawnFailed {
                executable: "/r/batch/batch".to_string(),
                detail: "No such file".to_string(),
            },
            ""
        ),
        "启动进程失败 /r/batch/batch: No such file"
    );
}

#[test]
fn message_tells_an_early_exit_by_what_was_waited_for() {
    let port = Some(Endpoint { host: "127.0.0.1".to_string(), port: 5275 });
    assert_eq!(
        message(&exited(port.clone(), ""), ""),
        "进程 server 已退出（状态: exit status: 1），服务 127.0.0.1:5275 未就绪。\n请查看日志：/d/logs/server.stderr.log"
    );
    assert_eq!(
        message(&exited(port, "a\nb"), ""),
        "进程 server 已退出（状态: exit status: 1），服务 127.0.0.1:5275 未就绪。\n日志：/d/logs/server.stderr.log\n\n最近 stderr 输出：\na\nb"
    );
    assert_eq!(
        message(&exited(None, ""), ""),
        "进程 server 已退出（状态: exit status: 1），未能保持运行。\n请查看日志：/d/logs/server.stderr.log"
    );
    assert_eq!(
        message(&exited(None, "boom"), ""),
        "进程 server 已退出（状态: exit status: 1），未能保持运行。\n日志：/d/logs/server.stderr.log\n\n最近 stderr 输出：\nboom"
    );
}

#[test]
fn message_names_host_port_and_both_logs_on_a_timeout() {
    assert_eq!(
        message(
            &RuntimeError::ReadinessTimeout {
                host: "127.0.0.1".to_string(),
                port: 5274,
                stdout_log: "/l/updater.stdout.log".to_string(),
                stderr_log: "/l/updater.stderr.log".to_string(),
            },
            ""
        ),
        "等待服务 127.0.0.1:5274 超时。\n请查看日志：/l/updater.stdout.log, /l/updater.stderr.log"
    );
    assert_eq!(
        message(
            &RuntimeError::StatusCheckFailed {
                name: "batch".to_string(),
                detail: "denied".to_string(),
                stdout_log: "/l/o".to_string(),
                stderr_log: "/l/e".to_string(),
            },
            ""
        ),
        "检查进程 batch 运行状态失败: denied。\n请查看日志：/l/o, /l/e"
    );
}

#[test]
fn message_names_the_line_of_the_environment_file() {
    assert_eq!(
        message(
            &RuntimeError::MalformedEnvFile { line: 12, reason: EnvLineFault::MissingSeparator },
            ""
        ),
        "runtime.env 第 12 行格式错误，期望 KEY=VALUE"
    );
    assert_eq!(
        message(&RuntimeError::MalformedEnvFile { line: 3, reason: EnvLineFault::EmptyKey }, ""),
        "runtime.env 第 3 行键名为空"
    );
}

#[test]
fn message_has_a_text_for_each_filesystem_failure() {
    assert_eq!(
        message(&filesystem(FsOperation::ResolveDataDir), "unknown path"),
        "解析应用数据目录失败: unknown path"
    );
    assert_eq!(message(&filesystem(FsOperation::CreateDataDir), "x"), "创建应用数据目录失败: denied");
    assert_eq!(message(&filesystem(FsOperation::CreateLogsDir), "x"), "创建日志目录失败: denied");
    assert_eq!(message(&filesystem(FsOperation::OpenLog), "x"), "打开日志文件失败 /d/x: denied");
    assert_eq!(
        message(&filesystem(FsOperation::ReadEnvFile), "x"),
        "读取 runtime.env 失败 (/d/x): denied"
    );
}
