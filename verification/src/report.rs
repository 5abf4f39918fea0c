//! Telling the user that the bootstrap failed.

use vstd::prelude::*;
use vstd::string::StringExecFns;
use crate::error::EndpointView;
use crate::error::EnvLineFault;
use crate::error::FsOperation;
use crate::error::RuntimeError;
use crate::error::RuntimeErrorView;

verus! {

/// What stands in place of the data directory where it is not known.
pub open spec fn unknown_data_dir() -> Seq<char> {
    "<无法解析应用数据目录>"@
}

/// The message for the user: where the logs are to be found, then the error.
pub open spec fn user_message_spec(data_dir: Option<Seq<char>>, error: Seq<char>) -> Seq<char> {
    let dir = match data_dir {
        Some(d) => d,
        None => unknown_data_dir(),
    };
    "启动失败，请按以下路径自检：\n\n1) 主错误日志："@ + dir + "\\bootstrap-error.log\n2) 服务日志目录："@ + dir
        + "\\logs\\\n   - background_runner.stderr.log\n   - server.stderr.log\n   - batch.stderr.log\n   - updater.stderr.log\n\n错误详情：\n"@
        + error
}

/// The message for the user after a failed bootstrap: the main error log
/// and the directory of the service logs, both under `data_dir`, the names
/// of the four error logs, and the error itself.
pub fn build_bootstrap_user_message(data_dir: Option<&str>, error: &str) -> (message: String)
    ensures
        message@ == user_message_spec(
            match data_dir {
                Some(d) => Some(d@),
                None => None,
            },
            error@,
        ),
{
    let dir = match data_dir {
        Some(d) => d,
        None => "<无法解析应用数据目录>",
    };
    let mut message = String::from_str("启动失败，请按以下路径自检：\n\n1) 主错误日志：");
    message.append(dir);
    message.append("\\bootstrap-error.log\n2) 服务日志目录：");
    message.append(dir);
    message.append(
        "\\logs\\\n   - background_runner.stderr.log\n   - server.stderr.log\n   - batch.stderr.log\n   - updater.stderr.log\n\n错误详情：\n",
    );
    message.append(error);
    message
}

/// The JSON text of the string `text`, as `serde_json` writes it.
pub uninterp spec fn json_string(text: Seq<char>) -> Seq<char>;

/// `serde_json::Error`: carried from the call to where it is dropped, and
/// never looked into.
#[verifier::external_type_specification]
#[verifier::external_body]
pub struct ExJsonError(serde_json::Error);

/// `serde_json::to_string` on a string. It writes the escaped text into a
/// vector in memory, which cannot fail, so the call succeeds on every
/// string; its result is the JSON text of that string, which depends on the
/// string alone.
#[verifier::external_body]
fn to_json_string(text: &str) -> (encoded: Result<String, serde_json::Error>)
    ensures
        encoded is Ok,
        encoded->Ok_0@ == json_string(text@),
{
    serde_json::to_string(text)
}

/// The script that shows `js_message`, a JavaScript expression, in a
/// dialog and on the start page.
pub open spec fn error_script_spec(js_message: Seq<char>) -> Seq<char> {
    "(function() {\n  const msg = "@ + js_message
        + ";\n  alert(msg);\n  const title = document.querySelector('.title');\n  const desc = document.querySelector('.desc');\n  if (title) title.innerText = 'PT Nexus 启动自检失败';\n  if (desc) {\n    desc.style.whiteSpace = 'pre-wrap';\n    desc.style.textAlign = 'left';\n    desc.innerText = msg;\n  }\n})();"@
}

/// The script that shows `js_message`, a JavaScript expression, in a
/// dialog and on the start page.
pub fn error_script(js_message: &str) -> (script: String)
    ensures
        script@ == error_script_spec(js_message@),
{
    let mut script = String::from_str("(function() {\n  const msg = ");
    script.append(js_message);
    script.append(
        ";\n  alert(msg);\n  const title = document.querySelector('.title');\n  const desc = document.querySelector('.desc');\n  if (title) title.innerText = 'PT Nexus 启动自检失败';\n  if (desc) {\n    desc.style.whiteSpace = 'pre-wrap';\n    desc.style.textAlign = 'left';\n    desc.innerText = msg;\n  }\n})();",
    );
    script
}

/// The message shown where the real one cannot be written as JSON.
pub open spec fn fallback_message() -> Seq<char> {
    "\"启动失败，请查看 bootstrap-error.log 和 logs/*.stderr.log\""@
}

/// The script for `encoded`, the outcome of writing the message as JSON:
/// the script with the message where that worked, the script with a fixed
/// message where it did not.
pub fn script_for<E>(encoded: Result<String, E>) -> (script: String)
    ensures
        script@ == error_script_spec(
            match encoded {
                Ok(json) => json@,
                Err(_) => fallback_message(),
            },
        ),
{
    match encoded {
        Ok(json) => error_script(json.as_str()),
        Err(_) => error_script("\"启动失败，请查看 bootstrap-error.log 和 logs/*.stderr.log\""),
    }
}

/// The script that shows `message` to the user: the message is handed to
/// the page as a JSON string.
pub fn bootstrap_error_script(message: &str) -> (script: String)
    ensures
        script@ == error_script_spec(json_string(message@)),
{
    script_for(to_json_string(message))
}

/// The character for the digit `d`.
pub open spec fn digit_char(d: nat) -> char {
    if d == 0 {
        '0'
    } else if d == 1 {
        '1'
    } else if d == 2 {
        '2'
    } else if d == 3 {
        '3'
    } else if d == 4 {
        '4'
    } else if d == 5 {
        '5'
    } else if d == 6 {
        '6'
    } else if d == 7 {
        '7'
    } else if d == 8 {
        '8'
    } else {
        '9'
    }
}

/// The number `n` written in decimal digits, without leading zeros.
pub open spec fn decimal_spec(n: nat) -> Seq<char>
    decreases n,
{
    if n < 10 {
        seq![digit_char(n)]
    } else {
        decimal_spec(n / 10).push(digit_char(n % 10))
    }
}

/// The text of the digit `d`.
fn digit_text(d: u64) -> (text: &'static str)
    requires
        d < 10,
    ensures
        text@ == seq![digit_char(d as nat)],
{
    proof {
        reveal_strlit("0");
        reveal_strlit("1");
        reveal_strlit("2");
        reveal_strlit("3");
        reveal_strlit("4");
        reveal_strlit("5");
        reveal_strlit("6");
        reveal_strlit("7");
        reveal_strlit("8");
        reveal_strlit("9");
    }
    let text = if d == 0 {
        "0"
    } else if d == 1 {
        "1"
    } else if d == 2 {
        "2"
    } else if d == 3 {
        "3"
    } else if d == 4 {
        "4"
    } else if d == 5 {
        "5"
    } else if d == 6 {
        "6"
    } else if d == 7 {
        "7"
    } else if d == 8 {
        "8"
    } else {
        "9"
    };
    assert(text@ =~= seq![digit_char(d as nat)]);
    text
}

/// The number `n` written in decimal digits.
pub fn decimal(n: u64) -> (text: String)
    ensures
        text@ == decimal_spec(n as nat),
    decreases n,
{
    if n < 10 {
        String::from_str(digit_text(n))
    } else {
        let mut text = decimal(n / 10);
        text.append(digit_text(n % 10));
        assert(text@ == decimal_spec((n / 10) as nat).push(digit_char((n % 10) as nat)));
        text
    }
}

/// `paths` one below the other, each on a line of its own after a dash.
pub open spec fn bulleted(paths: Seq<Seq<char>>) -> Seq<char>
    decreases paths.len(),
{
    if paths.len() == 0 {
        Seq::empty()
    } else {
        bulleted(paths.drop_last()) + "\n- "@ + paths.last()
    }
}

/// `paths` in one line, a comma and a space between each two.
pub open spec fn comma_separated(paths: Seq<Seq<char>>) -> Seq<char>
    decreases paths.len(),
{
    if paths.len() == 0 {
        Seq::empty()
    } else if paths.len() == 1 {
        paths[0]
    } else {
        comma_separated(paths.drop_last()) + ", "@ + paths.last()
    }
}

/// What a process that exited early had been waited for: its port, or
/// merely to stay alive.
pub open spec fn awaited_spec(endpoint: Option<EndpointView>) -> Seq<char> {
    match endpoint {
        Some(e) => "服务 "@ + e.host + ":"@ + decimal_spec(e.port as nat) + " 未就绪。"@,
        None => "未能保持运行。"@,
    }
}

/// Where to read on after an early exit: the log alone where it is empty or
/// unreadable, the log and its last lines otherwise.
pub open spec fn evidence_spec(stderr_log: Seq<char>, stderr_tail: Seq<char>) -> Seq<char> {
    if stderr_tail.len() == 0 {
        "\n请查看日志："@ + stderr_log
    } else {
        "\n日志："@ + stderr_log + "\n\n最近 stderr 输出：\n"@ + stderr_tail
    }
}

/// What is missing: the launcher of a service, with the three files of
/// which one or two would have served, or plain files.
pub open spec fn missing_spec(launcher: Option<Seq<char>>, paths: Seq<Seq<char>>) -> Seq<char> {
    if launcher is Some && paths.len() == 3 {
        "未找到 "@ + launcher->Some_0 + " 启动入口："@ + paths[0] + " 或 "@ + paths[1] + " + "@
            + paths[2]
    } else {
        "缺少运行文件: "@ + comma_separated(paths)
    }
}

/// What went wrong with the filesystem.
pub open spec fn filesystem_spec(
    operation: FsOperation,
    path: Seq<char>,
    detail: Seq<char>,
    data_dir_error: Seq<char>,
) -> Seq<char> {
    match operation {
        FsOperation::ResolveDataDir => "解析应用数据目录失败: "@ + data_dir_error,
        FsOperation::CreateDataDir => "创建应用数据目录失败: "@ + detail,
        FsOperation::CreateLogsDir => "创建日志目录失败: "@ + detail,
        FsOperation::OpenLog => "打开日志文件失败 "@ + path + ": "@ + detail,
        FsOperation::ReadEnvFile => "读取 runtime.env 失败 ("@ + path + "): "@ + detail,
    }
}

/// The one descriptive text of a failed bootstrap. `data_dir_error` is what
/// the platform said when it could not name the data directory.
pub open spec fn message_spec(error: RuntimeErrorView, data_dir_error: Seq<char>) -> Seq<char> {
    match error {
        RuntimeErrorView::RuntimeRootNotFound { checked } => "未找到可用运行目录。已检查: "@
            + bulleted(checked)
            + "\n\n支持两种布局：\n1) <安装目录>/_up_/runtime/{server,batch,updater}\n2) <安装目录>/{server,batch,updater}"@,
        RuntimeErrorView::MissingRuntimeAsset { launcher, paths } => missing_spec(launcher, paths),
        RuntimeErrorView::PortInUse { port } => "端口 "@ + decimal_spec(port as nat)
            + " 被占用，请先释放后再启动应用。"@,
        RuntimeErrorView::SpawnFailed { executable, detail } => "启动进程失败 "@ + executable + ": "@
            + detail,
        RuntimeErrorView::ProcessExitedEarly {
            name,
            status,
            endpoint,
            stderr_log,
            stderr_tail,
        } => "进程 "@ + name + " 已退出（状态: "@ + status.description + "），"@ + awaited_spec(endpoint)
            + evidence_spec(stderr_log, stderr_tail),
        RuntimeErrorView::ReadinessTimeout { host, port, stdout_log, stderr_log } => "等待服务 "@
            + host + ":"@ + decimal_spec(port as nat) + " 超时。\n请查看日志："@ + stdout_log + ", "@
            + stderr_log,
        RuntimeErrorView::MalformedEnvFile { line, reason } => "runtime.env 第 "@ + decimal_spec(
            line as nat,
        ) + match reason {
            EnvLineFault::MissingSeparator => " 行格式错误，期望 KEY=VALUE"@,
            EnvLineFault::EmptyKey => " 行键名为空"@,
        },
        RuntimeErrorView::FilesystemError { operation, path, detail } => filesystem_spec(
            operation,
            path,
            detail,
            data_dir_error,
        ),
        RuntimeErrorView::StatusCheckFailed { name, detail, stdout_log, stderr_log } => "检查进程 "@
            + name + " 运行状态失败: "@ + detail + "。\n请查看日志："@ + stdout_log + ", "@ + stderr_log,
    }
}

/// `paths` one below the other, each on a line of its own after a dash.
fn bulleted_text(paths: &Vec<String>) -> (text: String)
    ensures
        text@ == bulleted(paths.deep_view()),
{
    let mut text = String::new();
    let mut i: usize = 0;
    assert(paths.deep_view().take(0) == Seq::<Seq<char>>::empty());
    while i < paths.len()
        invariant
            i <= paths.len(),
            text@ == bulleted(paths.deep_view().take(i as int)),
        decreases paths.len() - i,
    {
        let ghost upto = paths.deep_view().take(i as int + 1);
        assert(upto.drop_last() == paths.deep_view().take(i as int));
        assert(upto.last() == paths[i as int]@);
        text.append("\n- ");
        text.append(paths[i].as_str());
        i = i + 1;
    }
    assert(paths.deep_view().take(paths.len() as int) == paths.deep_view());
    text
}

/// `paths` in one line, a comma and a space between each two.
fn comma_separated_text(paths: &Vec<String>) -> (text: String)
    ensures
        text@ == comma_separated(paths.deep_view()),
{
    let mut text = String::new();
    let mut i: usize = 0;
    assert(paths.deep_view().take(0) == Seq::<Seq<char>>::empty());
    while i < paths.len()
        invariant
            i <= paths.len(),
            text@ == comma_separated(paths.deep_view().take(i as int)),
        decreases paths.len() - i,
    {
        let ghost upto = paths.deep_view().take(i as int + 1);
        assert(upto.drop_last() == paths.deep_view().take(i as int));
        assert(upto.last() == paths[i as int]@);
        if i > 0 {
            text.append(", ");
        } else {
            assert(text@ + paths[i as int]@ == paths[i as int]@);
        }
        text.append(paths[i].as_str());
        i = i + 1;
    }
    assert(paths.deep_view().take(paths.len() as int) == paths.deep_view());
    text
}

/// The text of a failed bootstrap for the user. `data_dir_error` is what
/// the platform said when it could not name the data directory; it is used
/// for that failure alone.
pub fn message(error: &RuntimeError, data_dir_error: &str) -> (text: String)
    ensures
        text@ == message_spec(error@, data_dir_error@),
{
    match error {
        RuntimeError::RuntimeRootNotFound { checked } => {
            let mut text = String::from_str("未找到可用运行目录。已检查: ");
            text.append(bulleted_text(checked).as_str());
            text.append(
                "\n\n支持两种布局：\n1) <安装目录>/_up_/runtime/{server,batch,updater}\n2) <安装目录>/{server,batch,updater}",
            );
            text
        },
        RuntimeError::MissingRuntimeAsset { launcher, paths } => {
            match launcher {
                Some(name) => {
                    if paths.len() == 3 {
                        let mut text = String::from_str("未找到 ");
                        text.append(name.as_str());
                        text.append(" 启动入口：");
                        text.append(paths[0].as_str());
                        text.append(" 或 ");
                        text.append(paths[1].as_str());
                        text.append(" + ");
                        text.append(paths[2].as_str());
                        return text;
                    }
                },
                None => {},
            }
            let mut text = String::from_str("缺少运行文件: ");
            text.append(comma_separated_text(paths).as_str());
            text
        },
        RuntimeError::PortInUse { port } => {
            let mut text = String::from_str("端口 ");
            text.append(decimal(*port as u64).as_str());
            text.append(" 被占用，请先释放后再启动应用。");
            text
        },
        RuntimeError::SpawnFailed { executable, detail } => {
            let mut text = String::from_str("启动进程失败 ");
            text.append(executable.as_str());
            text.append(": ");
            text.append(detail.as_str());
            text
        },
        RuntimeError::ProcessExitedEarly { name, status, endpoint, stderr_log, stderr_tail } => {
            let awaited = match endpoint {
                Some(e) => {
                    let mut awaited = String::from_str("服务 ");
                    awaited.append(e.host.as_str());
                    awaited.append(":");
                    awaited.append(decimal(e.port as u64).as_str());
                    awaited.append(" 未就绪。");
                    awaited
                },
                None => String::from_str("未能保持运行。"),
            };
            let evidence = if stderr_tail.as_str().is_empty() {
                let mut evidence = String::from_str("\n请查看日志：");
                evidence.append(stderr_log.as_str());
                evidence
            } else {
                let mut evidence = String::from_str("\n日志：");
                evidence.append(stderr_log.as_str());
                evidence.append("\n\n最近 stderr 输出：\n");
                evidence.append(stderr_tail.as_str());
                evidence
            };
            let mut text = String::from_str("进程 ");
            text.append(name.as_str());
            text.append(" 已退出（状态: ");
            text.append(status.description.as_str());
            text.append("），");
            text.append(awaited.as_str());
            text.append(evidence.as_str());
            text
        },
        RuntimeError::ReadinessTimeout { host, port, stdout_log, stderr_log } => {
            let mut text = String::from_str("等待服务 ");
            text.append(host.as_str());
            text.append(":");
            text.append(decimal(*port as u64).as_str());
            text.append(" 超时。\n请查看日志：");
            text.append(stdout_log.as_str());
            text.append(", ");
            text.append(stderr_log.as_str());
            text
        },
        RuntimeError::MalformedEnvFile { line, reason } => {
            let mut text = String::from_str("runtime.env 第 ");
            text.append(decimal(*line as u64).as_str());
            match reason {
                EnvLineFault::MissingSeparator => {
                    text.append(" 行格式错误，期望 KEY=VALUE");
                },
                EnvLineFault::EmptyKey => {
                    text.append(" 行键名为空");
                },
            }
            text
        },
        RuntimeError::FilesystemError { operation, path, detail } => {
            match operation {
                FsOperation::ResolveDataDir => {
                    let mut text = String::from_str("解析应用数据目录失败: ");
                    text.append(data_dir_error);
                    text
                },
                FsOperation::CreateDataDir => {
                    let mut text = String::from_str("创建应用数据目录失败: ");
                    text.append(detail.as_str());
                    text
                },
                FsOperation::CreateLogsDir => {
                    let mut text = String::from_str("创建日志目录失败: ");
                    text.append(detail.as_str());
                    text
                },
                FsOperation::OpenLog => {
                    let mut text = String::from_str("打开日志文件失败 ");
                    text.append(path.as_str());
                    text.append(": ");
                    text.append(detail.as_str());
                    text
                },
                FsOperation::ReadEnvFile => {
                    let mut text = String::from_str("读取 runtime.env 失败 (");
                    text.append(path.as_str());
                    text.append("): ");
                    text.append(detail.as_str());
                    text
                },
            }
        },
        RuntimeError::StatusCheckFailed { name, detail, stdout_log, stderr_log } => {
            let mut text = String::from_str("检查进程 ");
            text.append(name.as_str());
            text.append(" 运行状态失败: ");
            text.append(detail.as_str());
            text.append("。\n请查看日志：");
            text.append(stdout_log.as_str());
            text.append(", ");
            text.append(stderr_log.as_str());
            text
        },
    }
}

} // verus!
