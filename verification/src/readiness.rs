//! Deciding, sample by sample, whether a freshly started service is usable.

use vstd::prelude::*;
use vstd::string::StrSliceExecFns;
use vstd::string::StringExecFns;
use crate::error::Endpoint;
use crate::error::EndpointView;
use crate::error::ExitReport;
use crate::error::ExitReportView;
use crate::error::RuntimeError;
use crate::error::RuntimeErrorView;
use crate::launcher::log_path;
use crate::launcher::log_path_spec;
use crate::platform::Platform;
use crate::text::lines_of;
use crate::text::pieces;
use crate::text::split_lines;
use crate::text::to_chars;

verus! {

/// How long to wait between two samples, in milliseconds.
pub const POLL_INTERVAL_MS: u64 = 250;

/// How many lines of a dead process's error log are reported.
pub const STDERR_TAIL_LINES: usize = 40;

/// What the operating system says of a child when asked without waiting.
#[derive(Debug, PartialEq, Eq)]
pub enum ChildStatus {
    /// It has not ended.
    Running,
    /// It has ended. `stderr` is what its error log holds, or nothing where
    /// the log could not be read.
    Exited { report: ExitReport, stderr: Option<String> },
    /// The question failed.
    Unknown { detail: String },
}

/// The mathematical value of a [`ChildStatus`].
pub enum ChildStatusView {
    Running,
    Exited { report: ExitReportView, stderr: Option<Seq<char>> },
    Unknown { detail: Seq<char> },
}

impl View for ChildStatus {
    type V = ChildStatusView;

    open spec fn view(&self) -> ChildStatusView {
        match self {
            ChildStatus::Running => ChildStatusView::Running,
            ChildStatus::Exited { report, stderr } => ChildStatusView::Exited {
                report: report@,
                stderr: stderr.deep_view(),
            },
            ChildStatus::Unknown { detail } => ChildStatusView::Unknown { detail: detail@ },
        }
    }
}

/// What one sample of a starting service comes to.
#[derive(Debug, PartialEq, Eq)]
pub enum Verdict {
    /// The service is usable.
    Ready,
    /// Nothing is decided: sample again after `millis` milliseconds.
    Wait { millis: u64 },
    /// The wait is over without the service having become usable.
    Failed { error: RuntimeError },
}

/// The mathematical value of a [`Verdict`].
pub enum VerdictView {
    Ready,
    Wait { millis: u64 },
    Failed { error: RuntimeErrorView },
}

impl View for Verdict {
    type V = VerdictView;

    open spec fn view(&self) -> VerdictView {
        match self {
            Verdict::Ready => VerdictView::Ready,
            Verdict::Wait { millis } => VerdictView::Wait { millis: *millis },
            Verdict::Failed { error } => VerdictView::Failed { error: error@ },
        }
    }
}

/// `lines` written one below the other: a line feed between each two.
pub open spec fn joined_lines(lines: Seq<Seq<char>>) -> Seq<char>
    decreases lines.len(),
{
    if lines.len() == 0 {
        Seq::empty()
    } else if lines.len() == 1 {
        lines[0]
    } else {
        joined_lines(lines.drop_last()).push('\n') + lines.last()
    }
}

/// The last `max_lines` lines of `lines`, or all of them where there are fewer.
pub open spec fn last_lines(lines: Seq<Seq<char>>, max_lines: nat) -> Seq<Seq<char>> {
    if lines.len() <= max_lines {
        lines
    } else {
        lines.skip(lines.len() - max_lines)
    }
}

/// The end of a log: its last `max_lines` lines, a line feed between each two.
pub open spec fn log_tail(content: Seq<char>, max_lines: nat) -> Seq<char> {
    joined_lines(last_lines(lines_of(content), max_lines))
}

/// The last `max_lines` lines of `content`, one below the other.
pub fn read_log_tail(content: &str, max_lines: usize) -> (tail: String)
    ensures
        tail@ == log_tail(content@, max_lines as nat),
{
    let chars = to_chars(content);
    let bounds = split_lines(&chars);
    let ghost lines = lines_of(content@);
    let count = bounds.len();
    let start = if count <= max_lines {
        0
    } else {
        count - max_lines
    };
    let ghost kept = lines.skip(start as int);
    assert(kept == last_lines(lines, max_lines as nat)) by {
        assert(lines.skip(0) == lines);
    }
    let mut tail = String::new();
    let mut i: usize = start;
    assert(kept.take(0) == Seq::<Seq<char>>::empty());
    while i < count
        invariant
            start <= i <= count,
            count == bounds.len(),
            chars@ == content@,
            pieces(chars@, bounds@) == lines,
            kept == lines.skip(start as int),
            forall|j: int|
                0 <= j < bounds.len() ==> (#[trigger] bounds[j]).0 <= bounds[j].1 <= chars.len(),
            tail@ == joined_lines(kept.take(i - start)),
        decreases count - i,
    {
        let (from, to) = bounds[i];
        let ghost sofar = kept.take(i - start);
        let ghost next = kept.take(i - start + 1);
        assert(next.drop_last() == sofar);
        assert(next.last() == lines[i as int]);
        assert(lines[i as int] == chars@.subrange(from as int, to as int)) by {
            assert(pieces(chars@, bounds@)[i as int] == chars@.subrange(
                bounds[i as int].0 as int,
                bounds[i as int].1 as int,
            ));
        }
        if i > start {
            proof {
                reveal_strlit("\n");
            }
            tail.append("\n");
            assert(tail@ == joined_lines(sofar).push('\n'));
        } else {
            assert(sofar.len() == 0);
            assert(tail@ + lines[i as int] == lines[i as int]);
        }
        tail.append(content.substring_char(from, to));
        i = i + 1;
    }
    assert(kept.take(count - start) == kept);
    tail
}

/// The report of a process that ended before it became ready: its status,
/// and the end of what it wrote to its error log.
pub open spec fn exited_early(
    name: Seq<char>,
    status: ExitReportView,
    endpoint: Option<EndpointView>,
    logs_dir: Seq<char>,
    log: Option<Seq<char>>,
    platform: Platform,
) -> RuntimeErrorView {
    RuntimeErrorView::ProcessExitedEarly {
        name,
        status,
        endpoint,
        stderr_log: log_path_spec(logs_dir, name, "stderr"@, platform),
        stderr_tail: match log {
            Some(content) => log_tail(content, STDERR_TAIL_LINES as nat),
            None => Seq::empty(),
        },
    }
}

/// The report of a process that ended before it became ready. `log` is what
/// its error log holds, or nothing where the log could not be read; the
/// report carries its last 40 lines.
pub fn process_exited_early(
    process_name: &str,
    status: ExitReport,
    endpoint: Option<Endpoint>,
    logs_dir: &str,
    log: Option<String>,
    platform: Platform,
) -> (error: RuntimeError)
    ensures
        error@ == exited_early(
            process_name@,
            status@,
            endpoint.deep_view(),
            logs_dir@,
            log.deep_view(),
            platform,
        ),
{
    let stderr_tail = match log {
        Some(content) => read_log_tail(content.as_str(), STDERR_TAIL_LINES),
        None => String::new(),
    };
    RuntimeError::ProcessExitedEarly {
        name: String::from_str(process_name),
        status,
        endpoint,
        stderr_log: log_path(logs_dir, process_name, "stderr", platform),
        stderr_tail,
    }
}

/// The error for a child whose state could not be asked.
pub open spec fn status_check_failed(
    name: Seq<char>,
    detail: Seq<char>,
    logs_dir: Seq<char>,
    platform: Platform,
) -> RuntimeErrorView {
    RuntimeErrorView::StatusCheckFailed {
        name,
        detail,
        stdout_log: log_path_spec(logs_dir, name, "stdout"@, platform),
        stderr_log: log_path_spec(logs_dir, name, "stderr"@, platform),
    }
}

/// What a sample means for a service that is ready once its port accepts a
/// connection. A connection settles it. Without one, a process that has
/// ended is reported as such at once, however much time has passed, with
/// its status and the end of its error log; a
/// process that still runs is given up only after more than `timeout_ms`
/// milliseconds, and sampled again after a quarter of a second otherwise.
pub open spec fn network_verdict(
    name: Seq<char>,
    connected: bool,
    status: ChildStatusView,
    elapsed_ms: u64,
    host: Seq<char>,
    port: u16,
    timeout_ms: u64,
    logs_dir: Seq<char>,
    platform: Platform,
) -> VerdictView {
    if connected {
        VerdictView::Ready
    } else {
        match status {
            ChildStatusView::Exited { report, stderr } => VerdictView::Failed {
                error: exited_early(
                    name,
                    report,
                    Some(EndpointView { host, port }),
                    logs_dir,
                    stderr,
                    platform,
                ),
            },
            ChildStatusView::Unknown { detail } => VerdictView::Failed {
                error: status_check_failed(name, detail, logs_dir, platform),
            },
            ChildStatusView::Running => if elapsed_ms > timeout_ms {
                VerdictView::Failed {
                    error: RuntimeErrorView::ReadinessTimeout {
                        host,
                        port,
                        stdout_log: log_path_spec(logs_dir, name, "stdout"@, platform),
                        stderr_log: log_path_spec(logs_dir, name, "stderr"@, platform),
                    },
                }
            } else {
                VerdictView::Wait { millis: POLL_INTERVAL_MS }
            },
        }
    }
}

/// What a sample means for a service without a port, which is ready once it
/// has stayed alive for `timeout_ms` milliseconds. A process that has ended
/// is reported as such at once.
pub open spec fn liveness_verdict(
    name: Seq<char>,
    status: ChildStatusView,
    elapsed_ms: u64,
    timeout_ms: u64,
    logs_dir: Seq<char>,
    platform: Platform,
) -> VerdictView {
    match status {
        ChildStatusView::Exited { report, stderr } => VerdictView::Failed {
            error: exited_early(name, report, None, logs_dir, stderr, platform),
        },
        ChildStatusView::Unknown { detail } => VerdictView::Failed {
            error: status_check_failed(name, detail, logs_dir, platform),
        },
        ChildStatusView::Running => if elapsed_ms >= timeout_ms {
            VerdictView::Ready
        } else {
            VerdictView::Wait { millis: POLL_INTERVAL_MS }
        },
    }
}

/// Judges one sample of a service that is ready once `host:port` accepts a
/// connection. `connected` tells whether the attempt made for this sample
/// succeeded; `status` is the child's state and `elapsed_ms` the time since
/// the wait began, both taken after a failed attempt and ignored after a
/// successful one.
pub fn wait_for_http_with_process_state(
    process_name: &str,
    connected: bool,
    status: ChildStatus,
    elapsed_ms: u64,
    host: &str,
    port: u16,
    timeout_ms: u64,
    logs_dir: &str,
    platform: Platform,
) -> (verdict: Verdict)
    ensures
        verdict@ == network_verdict(
            process_name@,
            connected,
            status@,
            elapsed_ms,
            host@,
            port,
            timeout_ms,
            logs_dir@,
            platform,
        ),
{
    if connected {
        return Verdict::Ready;
    }
    match status {
        ChildStatus::Exited { report, stderr } => Verdict::Failed {
            error: process_exited_early(
                process_name,
                report,
                Some(Endpoint { host: String::from_str(host), port }),
                logs_dir,
                stderr,
                platform,
            ),
        },
        ChildStatus::Unknown { detail } => Verdict::Failed {
            error: RuntimeError::StatusCheckFailed {
                name: String::from_str(process_name),
                detail,
                stdout_log: log_path(logs_dir, process_name, "stdout", platform),
                stderr_log: log_path(logs_dir, process_name, "stderr", platform),
            },
        },
        ChildStatus::Running => {
            if elapsed_ms > timeout_ms {
                Verdict::Failed {
                    error: RuntimeError::ReadinessTimeout {
                        host: String::from_str(host),
                        port,
                        stdout_log: log_path(logs_dir, process_name, "stdout", platform),
                        stderr_log: log_path(logs_dir, process_name, "stderr", platform),
                    },
                }
            } else {
                Verdict::Wait { millis: POLL_INTERVAL_MS }
            }
        },
    }
}

/// Judges one sample of a service that is ready once it has stayed alive
/// for `timeout_ms` milliseconds.
pub fn wait_for_process_running(
    process_name: &str,
    status: ChildStatus,
    elapsed_ms: u64,
    timeout_ms: u64,
    logs_dir: &str,
    platform: Platform,
) -> (verdict: Verdict)
    ensures
        verdict@ == liveness_verdict(
            process_name@,
            status@,
            elapsed_ms,
            timeout_ms,
            logs_dir@,
            platform,
        ),
{
    match status {
        ChildStatus::Exited { report, stderr } => Verdict::Failed {
            error: process_exited_early(process_name, report, None, logs_dir, stderr, platform),
        },
        ChildStatus::Unknown { detail } => Verdict::Failed {
            error: RuntimeError::StatusCheckFailed {
                name: String::from_str(process_name),
                detail,
                stdout_log: log_path(logs_dir, process_name, "stdout", platform),
                stderr_log: log_path(logs_dir, process_name, "stderr", platform),
            },
        },
        ChildStatus::Running => {
            if elapsed_ms >= timeout_ms {
                Verdict::Ready
            } else {
                Verdict::Wait { millis: POLL_INTERVAL_MS }
            }
        },
    }
}

/// A process that has ended before it became ready is never reported as a
/// timeout, nor waited for: whatever the time that has passed and whatever
/// the limit, the verdict is that it exited early, with its status and the
/// end of its error log.
pub proof fn lemma_exit_beats_timeout(
    name: Seq<char>,
    report: ExitReportView,
    stderr: Option<Seq<char>>,
    elapsed_ms: u64,
    host: Seq<char>,
    port: u16,
    timeout_ms: u64,
    logs_dir: Seq<char>,
    platform: Platform,
)
    ensures
        network_verdict(
            name,
            false,
            ChildStatusView::Exited { report, stderr },
            elapsed_ms,
            host,
            port,
            timeout_ms,
            logs_dir,
            platform,
        ) == (VerdictView::Failed {
            error: exited_early(
                name,
                report,
                Some(EndpointView { host, port }),
                logs_dir,
                stderr,
                platform,
            ),
        }),
        liveness_verdict(
            name,
            ChildStatusView::Exited { report, stderr },
            elapsed_ms,
            timeout_ms,
            logs_dir,
            platform,
        ) == (VerdictView::Failed {
            error: exited_early(name, report, None, logs_dir, stderr, platform),
        }),
{
}

} // verus!
