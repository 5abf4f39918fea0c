//! What the supervisor asks of its driver, and what the driver reports back.

use vstd::prelude::*;
use crate::env::EnvironmentSet;
use crate::error::Endpoint;
use crate::error::EndpointView;
use crate::error::RuntimeError;
use crate::error::RuntimeErrorView;
use crate::launcher::LaunchPlan;
use crate::launcher::LaunchPlanView;
use crate::readiness::ChildStatus;
use crate::readiness::ChildStatusView;

verus! {

/// The supervised services, in the order in which they are started.
#[derive(Clone, Copy, Debug, PartialEq, Eq, Structural)]
pub enum Service {
    /// The background task runner; it listens on no port.
    BackgroundRunner,
    /// The API server.
    Server,
    /// The batch worker.
    Batch,
    /// The update checker.
    Updater,
}

impl Service {
    /// The name under which the service is known and its logs are kept.
    pub open spec fn name_spec(self) -> Seq<char> {
        match self {
            Service::BackgroundRunner => "background_runner"@,
            Service::Server => "server"@,
            Service::Batch => "batch"@,
            Service::Updater => "updater"@,
        }
    }

    /// The name under which the service is known and its logs are kept.
    pub fn name(self) -> (name: &'static str)
        ensures
            name@ == self.name_spec(),
    {
        match self {
            Service::BackgroundRunner => "background_runner",
            Service::Server => "server",
            Service::Batch => "batch",
            Service::Updater => "updater",
        }
    }

    /// The service that is started once this one is ready, if any is left.
    pub open spec fn following_spec(self) -> Option<Service> {
        match self {
            Service::BackgroundRunner => Some(Service::Server),
            Service::Server => Some(Service::Batch),
            Service::Batch => Some(Service::Updater),
            Service::Updater => None,
        }
    }

    /// The service that is started once this one is ready, if any is left.
    pub fn following(self) -> (next: Option<Service>)
        ensures
            next == self.following_spec(),
    {
        match self {
            Service::BackgroundRunner => Some(Service::Server),
            Service::Server => Some(Service::Batch),
            Service::Batch => Some(Service::Updater),
            Service::Updater => None,
        }
    }

    /// How many services are started before this one.
    pub open spec fn rank(self) -> nat {
        match self {
            Service::BackgroundRunner => 0,
            Service::Server => 1,
            Service::Batch => 2,
            Service::Updater => 3,
        }
    }

    /// The loopback port on which the service listens, if it listens at all.
    pub open spec fn port_spec(self) -> Option<u16> {
        match self {
            Service::BackgroundRunner => None,
            Service::Server => Some(5275u16),
            Service::Batch => Some(5276u16),
            Service::Updater => Some(5274u16),
        }
    }

    /// The loopback port on which the service listens, if it listens at all.
    pub fn port(self) -> (port: Option<u16>)
        ensures
            port == self.port_spec(),
    {
        match self {
            Service::BackgroundRunner => None,
            Service::Server => Some(5275u16),
            Service::Batch => Some(5276u16),
            Service::Updater => Some(5274u16),
        }
    }

    /// How long the service is given to become ready, in milliseconds: ten
    /// seconds of staying alive for the one without a port, thirty seconds
    /// to open its port for each of the others.
    pub open spec fn timeout_ms_spec(self) -> u64 {
        match self {
            Service::BackgroundRunner => 10_000u64,
            _ => 30_000u64,
        }
    }

    /// How long the service is given to become ready, in milliseconds.
    pub fn timeout_ms(self) -> (millis: u64)
        ensures
            millis == self.timeout_ms_spec(),
    {
        match self {
            Service::BackgroundRunner => 10_000u64,
            _ => 30_000u64,
        }
    }
}

/// The names of the four services in the order in which they are started.
pub open spec fn service_names() -> Seq<Seq<char>> {
    seq![
        Service::BackgroundRunner.name_spec(),
        Service::Server.name_spec(),
        Service::Batch.name_spec(),
        Service::Updater.name_spec(),
    ]
}

/// A child that was started and has not been shut down by the supervisor.
#[derive(Debug, PartialEq, Eq)]
pub struct ManagedProcess {
    /// The name of the service.
    pub name: String,
    /// The driver's handle for the operating system's process.
    pub handle: u64,
    /// The file to which its standard output is appended.
    pub stdout_log: String,
    /// The file to which its standard error is appended.
    pub stderr_log: String,
}

/// The mathematical value of a [`ManagedProcess`].
pub struct ManagedProcessView {
    pub name: Seq<char>,
    pub handle: u64,
    pub stdout_log: Seq<char>,
    pub stderr_log: Seq<char>,
}

impl View for ManagedProcess {
    type V = ManagedProcessView;

    open spec fn view(&self) -> ManagedProcessView {
        ManagedProcessView {
            name: self.name@,
            handle: self.handle,
            stdout_log: self.stdout_log@,
            stderr_log: self.stderr_log@,
        }
    }
}

impl DeepView for ManagedProcess {
    type V = ManagedProcessView;

    open spec fn deep_view(&self) -> ManagedProcessView {
        self@
    }
}

/// One file to copy.
#[derive(Debug, PartialEq, Eq)]
pub struct CopyJob {
    /// The file to read.
    pub from: String,
    /// The file to write.
    pub to: String,
}

/// The mathematical value of a [`CopyJob`].
pub struct CopyJobView {
    pub from: Seq<char>,
    pub to: Seq<char>,
}

impl View for CopyJob {
    type V = CopyJobView;

    open spec fn view(&self) -> CopyJobView {
        CopyJobView { from: self.from@, to: self.to@ }
    }
}

impl DeepView for CopyJob {
    type V = CopyJobView;

    open spec fn deep_view(&self) -> CopyJobView {
        self@
    }
}

/// What came of reading a file as text.
#[derive(Debug)]
pub enum FileContent {
    /// There is no such file.
    Absent,
    /// The file exists and could not be read.
    Unreadable { detail: String },
    /// What the file holds.
    Text { content: String },
}

/// The mathematical value of a [`FileContent`].
pub enum FileContentView {
    Absent,
    Unreadable { detail: Seq<char> },
    Text { content: Seq<char> },
}

impl View for FileContent {
    type V = FileContentView;

    open spec fn view(&self) -> FileContentView {
        match self {
            FileContent::Absent => FileContentView::Absent,
            FileContent::Unreadable { detail } => FileContentView::Unreadable { detail: detail@ },
            FileContent::Text { content } => FileContentView::Text { content: content@ },
        }
    }
}

/// One of the two output streams of a child.
#[derive(Clone, Copy, Debug, PartialEq, Eq, Structural)]
pub enum LogStream {
    Stdout,
    Stderr,
}

impl LogStream {
    /// The word for the stream in the name of its log file.
    pub open spec fn word_spec(self) -> Seq<char> {
        match self {
            LogStream::Stdout => "stdout"@,
            LogStream::Stderr => "stderr"@,
        }
    }

    /// The word for the stream in the name of its log file.
    pub fn word(self) -> (word: &'static str)
        ensures
            word@ == self.word_spec(),
    {
        match self {
            LogStream::Stdout => "stdout",
            LogStream::Stderr => "stderr",
        }
    }
}

/// What the driver reports after it has carried out an action.
#[derive(Debug)]
pub enum Event {
    /// The port could be bound, and was released again.
    PortFree,
    /// The port could not be bound.
    PortBusy,
    /// Of the paths asked about, those in `present` exist.
    Probed { present: Vec<String> },
    /// The action was carried out.
    Done,
    /// The action failed; `detail` is the operating system's word on it.
    Failed { detail: String },
    /// The host's environment defines the variables in `values`, among
    /// those asked about.
    HostEnv { values: EnvironmentSet },
    /// What came of reading the file.
    FileRead { content: FileContent },
    /// The child runs. `handle` stands for it from now on; `at_ms` is the
    /// reading of a clock that never runs backwards, in milliseconds.
    Spawned { handle: u64, at_ms: u64 },
    /// The child was not started because a log file could not be opened.
    LogOpenFailed { stream: LogStream, detail: String },
    /// One sample of a starting child, taken at the clock reading `at_ms`.
    Sampled { connected: bool, status: ChildStatus, at_ms: u64 },
}

/// The mathematical value of an [`Event`].
pub enum EventView {
    PortFree,
    PortBusy,
    Probed { present: Set<Seq<char>> },
    Done,
    Failed { detail: Seq<char> },
    HostEnv { values: Map<Seq<char>, Seq<char>> },
    FileRead { content: FileContentView },
    Spawned { handle: u64, at_ms: u64 },
    LogOpenFailed { stream: LogStream, detail: Seq<char> },
    Sampled { connected: bool, status: ChildStatusView, at_ms: u64 },
}

impl View for Event {
    type V = EventView;

    open spec fn view(&self) -> EventView {
        match self {
            Event::PortFree => EventView::PortFree,
            Event::PortBusy => EventView::PortBusy,
            Event::Probed { present } => EventView::Probed { present: present.deep_view().to_set() },
            Event::Done => EventView::Done,
            Event::Failed { detail } => EventView::Failed { detail: detail@ },
            Event::HostEnv { values } => EventView::HostEnv { values: values@ },
            Event::FileRead { content } => EventView::FileRead { content: content@ },
            Event::Spawned { handle, at_ms } => EventView::Spawned { handle: *handle, at_ms: *at_ms },
            Event::LogOpenFailed { stream, detail } => EventView::LogOpenFailed {
                stream: *stream,
                detail: detail@,
            },
            Event::Sampled { connected, status, at_ms } => EventView::Sampled {
                connected: *connected,
                status: status@,
                at_ms: *at_ms,
            },
        }
    }
}

/// What the supervisor asks its driver to do next.
#[derive(Debug)]
pub enum Action {
    /// Bind the loopback port and release it; answer `PortFree` or `PortBusy`.
    BindPort { port: u16 },
    /// Look which of `paths` exist; answer `Probed`.
    Probe { paths: Vec<String> },
    /// Create the directory with all its parents; answer `Done` or `Failed`.
    CreateDir { path: String },
    /// Copy each file as far as it can be done; answer `Done`.
    CopyFiles { jobs: Vec<CopyJob> },
    /// Read the variables `keys` from the host's environment; answer `HostEnv`.
    ReadHostEnv { keys: Vec<String> },
    /// Read the file as text; answer `FileRead`.
    ReadFile { path: String },
    /// Start the child as planned; answer `Spawned`, `LogOpenFailed` or `Failed`.
    Spawn { service: Service, plan: LaunchPlan },
    /// Wait `after_ms` milliseconds, then sample the child `handle`: try to
    /// connect to `connect` where that is given, and ask for the child's
    /// state unless the connection succeeded; answer `Sampled`.
    Sample { handle: u64, after_ms: u64, connect: Option<Endpoint> },
    /// Nothing: every service is up.
    Finished,
    /// Nothing: the bootstrap has failed with `error`, and what was started
    /// is left running.
    Abort { error: RuntimeError },
    /// Nothing: the event answers no question that was asked, and was ignored.
    Rejected,
}

/// The mathematical value of an [`Action`].
pub enum ActionView {
    BindPort { port: u16 },
    Probe { paths: Seq<Seq<char>> },
    CreateDir { path: Seq<char> },
    CopyFiles { jobs: Seq<CopyJobView> },
    ReadHostEnv { keys: Seq<Seq<char>> },
    ReadFile { path: Seq<char> },
    Spawn { service: Service, plan: LaunchPlanView },
    Sample { handle: u64, after_ms: u64, connect: Option<EndpointView> },
    Finished,
    Abort { error: RuntimeErrorView },
    Rejected,
}

impl View for Action {
    type V = ActionView;

    open spec fn view(&self) -> ActionView {
        match self {
            Action::BindPort { port } => ActionView::BindPort { port: *port },
            Action::Probe { paths } => ActionView::Probe { paths: paths.deep_view() },
            Action::CreateDir { path } => ActionView::CreateDir { path: path@ },
            Action::CopyFiles { jobs } => ActionView::CopyFiles { jobs: jobs.deep_view() },
            Action::ReadHostEnv { keys } => ActionView::ReadHostEnv { keys: keys.deep_view() },
            Action::ReadFile { path } => ActionView::ReadFile { path: path@ },
            Action::Spawn { service, plan } => ActionView::Spawn { service: *service, plan: plan@ },
            Action::Sample { handle, after_ms, connect } => ActionView::Sample {
                handle: *handle,
                after_ms: *after_ms,
                connect: connect.deep_view(),
            },
            Action::Finished => ActionView::Finished,
            Action::Abort { error } => ActionView::Abort { error: error@ },
            Action::Rejected => ActionView::Rejected,
        }
    }
}

} // verus!
