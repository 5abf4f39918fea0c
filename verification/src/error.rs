//! The ways in which bringing the services up can fail.

use vstd::prelude::*;

verus! {

/// Why a line of the environment file was refused.
#[derive(Clone, Copy, Debug, PartialEq, Eq, Structural)]
pub enum EnvLineFault {
    /// The line holds no `=`.
    MissingSeparator,
    /// Nothing but white space stands before the `=`.
    EmptyKey,
}

/// The step at which the filesystem let the supervisor down.
#[derive(Clone, Copy, Debug, PartialEq, Eq, Structural)]
pub enum FsOperation {
    /// The per-user data directory could not be determined.
    ResolveDataDir,
    /// The scratch directory in the user's data could not be created.
    CreateDataDir,
    /// The directory of the logs could not be created.
    CreateLogsDir,
    /// A log file could not be opened for appending.
    OpenLog,
    /// The environment file exists and could not be read.
    ReadEnvFile,
}

/// How a process ended.
#[derive(Clone, Debug, PartialEq, Eq)]
pub struct ExitReport {
    /// The exit code; `None` where the process was ended by a signal.
    pub code: Option<i32>,
    /// The status as the operating system words it.
    pub description: String,
}

/// The mathematical value of an [`ExitReport`].
pub struct ExitReportView {
    pub code: Option<i32>,
    pub description: Seq<char>,
}

impl View for ExitReport {
    type V = ExitReportView;

    open spec fn view(&self) -> ExitReportView {
        ExitReportView { code: self.code, description: self.description@ }
    }
}

/// The address at which a service is tried.
#[derive(Clone, Debug, PartialEq, Eq)]
pub struct Endpoint {
    pub host: String,
    pub port: u16,
}

/// The mathematical value of an [`Endpoint`].
pub struct EndpointView {
    pub host: Seq<char>,
    pub port: u16,
}

impl View for Endpoint {
    type V = EndpointView;

    open spec fn view(&self) -> EndpointView {
        EndpointView { host: self.host@, port: self.port }
    }
}

impl DeepView for Endpoint {
    type V = EndpointView;

    open spec fn deep_view(&self) -> EndpointView {
        self@
    }
}

/// A failed bootstrap, with what a person needs to put it right.
#[derive(Clone, Debug, PartialEq, Eq)]
pub enum RuntimeError {
    /// No candidate directory holds the service bundle; `checked` lists them
    /// in the order in which they were tried.
    RuntimeRootNotFound { checked: Vec<String> },
    /// A required executable or file is absent; `paths` names every place
    /// where one that would have served was looked for. Where it is the
    /// launcher of a service that cannot be had, `launcher` names the
    /// service.
    MissingRuntimeAsset { launcher: Option<String>, paths: Vec<String> },
    /// A loopback port that a service needs is already bound.
    PortInUse { port: u16 },
    /// The operating system did not start `executable`.
    SpawnFailed { executable: String, detail: String },
    /// The process ended before it became ready. `endpoint` is where it
    /// was expected to listen, if it was to listen at all.
    ProcessExitedEarly {
        name: String,
        status: ExitReport,
        endpoint: Option<Endpoint>,
        stderr_log: String,
        stderr_tail: String,
    },
    /// The process kept running and its port never opened.
    ReadinessTimeout { host: String, port: u16, stdout_log: String, stderr_log: String },
    /// A line of the environment file is neither blank, a comment nor `KEY=VALUE`.
    MalformedEnvFile { line: usize, reason: EnvLineFault },
    /// A directory or file could not be created, opened or read.
    FilesystemError { operation: FsOperation, path: String, detail: String },
    /// The operating system would not say whether the process still runs.
    StatusCheckFailed { name: String, detail: String, stdout_log: String, stderr_log: String },
}

/// The mathematical value of a [`RuntimeError`].
pub enum RuntimeErrorView {
    RuntimeRootNotFound { checked: Seq<Seq<char>> },
    MissingRuntimeAsset { launcher: Option<Seq<char>>, paths: Seq<Seq<char>> },
    PortInUse { port: u16 },
    SpawnFailed { executable: Seq<char>, detail: Seq<char> },
    ProcessExitedEarly {
        name: Seq<char>,
        status: ExitReportView,
        endpoint: Option<EndpointView>,
        stderr_log: Seq<char>,
        stderr_tail: Seq<char>,
    },
    ReadinessTimeout { host: Seq<char>, port: u16, stdout_log: Seq<char>, stderr_log: Seq<char> },
    MalformedEnvFile { line: usize, reason: EnvLineFault },
    FilesystemError { operation: FsOperation, path: Seq<char>, detail: Seq<char> },
    StatusCheckFailed {
        name: Seq<char>,
        detail: Seq<char>,
        stdout_log: Seq<char>,
        stderr_log: Seq<char>,
    },
}

impl View for RuntimeError {
    type V = RuntimeErrorView;

    open spec fn view(&self) -> RuntimeErrorView {
        match self {
            RuntimeError::RuntimeRootNotFound { checked } => RuntimeErrorView::RuntimeRootNotFound {
                checked: checked.deep_view(),
            },
            RuntimeError::MissingRuntimeAsset {
                launcher,
                paths,
            } => RuntimeErrorView::MissingRuntimeAsset {
                launcher: launcher.deep_view(),
                paths: paths.deep_view(),
            },
            RuntimeError::PortInUse { port } => RuntimeErrorView::PortInUse { port: *port },
            RuntimeError::SpawnFailed { executable, detail } => RuntimeErrorView::SpawnFailed {
                executable: executable@,
                detail: detail@,
            },
            RuntimeError::ProcessExitedEarly {
                name,
                status,
                endpoint,
                stderr_log,
                stderr_tail,
            } => RuntimeErrorView::ProcessExitedEarly {
                name: name@,
                status: status@,
                endpoint: endpoint.deep_view(),
                stderr_log: stderr_log@,
                stderr_tail: stderr_tail@,
            },
            RuntimeError::ReadinessTimeout {
                host,
                port,
                stdout_log,
                stderr_log,
            } => RuntimeErrorView::ReadinessTimeout {
                host: host@,
                port: *port,
                stdout_log: stdout_log@,
                stderr_log: stderr_log@,
            },
            RuntimeError::MalformedEnvFile { line, reason } => RuntimeErrorView::MalformedEnvFile {
                line: *line,
                reason: *reason,
            },
            RuntimeError::FilesystemError {
                operation,
                path,
                detail,
            } => RuntimeErrorView::FilesystemError {
                operation: *operation,
                path: path@,
                detail: detail@,
            },
            RuntimeError::StatusCheckFailed {
                name,
                detail,
                stdout_log,
                stderr_log,
            } => RuntimeErrorView::StatusCheckFailed {
                name: name@,
                detail: detail@,
                stdout_log: stdout_log@,
                stderr_log: stderr_log@,
            },
        }
    }
}

impl DeepView for RuntimeError {
    type V = RuntimeErrorView;

    open spec fn deep_view(&self) -> RuntimeErrorView {
        self@
    }
}

/// The mathematical value of an outcome: that of what was gained, or that
/// of the error.
pub open spec fn outcome_view<T: View>(outcome: Result<T, RuntimeError>) -> Result<
    T::V,
    RuntimeErrorView,
> {
    match outcome {
        Ok(gained) => Ok(gained@),
        Err(error) => Err(error@),
    }
}

} // verus!
