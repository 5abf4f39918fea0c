//! The supervisor as a state machine: from a state and an event to the next
//! state and the action to take.

use vstd::prelude::*;
use crate::env::default_env;
use crate::env::host_override_keys_spec;
use crate::env::merge_lines;
use crate::env::with_host_overrides;
use crate::error::FsOperation;
use crate::error::ExitReportView;
use crate::error::RuntimeErrorView;
use crate::launcher::launch_plan_spec;
use crate::launcher::LaunchPlanView;
use crate::launcher::launcher_paths;
use crate::launcher::log_path_spec;
use crate::launcher::resolved_launcher;
use crate::launcher::ProcessSpecView;
use crate::paths::join_spec;
use crate::platform::Platform;
use crate::protocol::ActionView;
use crate::protocol::CopyJobView;
use crate::error::EndpointView;
use crate::protocol::EventView;
use crate::protocol::FileContentView;
use crate::protocol::ManagedProcessView;
use crate::readiness::ChildStatusView;
use crate::protocol::service_names;
use crate::protocol::Service;
use crate::readiness::exited_early;
use crate::readiness::liveness_verdict;
use crate::readiness::network_verdict;
use crate::readiness::VerdictView;
use crate::resolver::batch_path;
use crate::resolver::changelog_candidates_spec;
use crate::resolver::changelog_choice;
use crate::resolver::chosen_root;
use crate::resolver::index_path;
use crate::resolver::required_assets;
use crate::resolver::root_candidates;
use crate::resolver::root_probe_paths;
use crate::resolver::updater_path;
use crate::resolver::HostDirsView;
use crate::text::lines_of;

verus! {

/// Where the bootstrap stands: what the driver was last asked to do.
#[derive(Clone, Copy, Debug, PartialEq, Eq, Structural)]
pub enum Phase {
    /// To bind the reserved port number `index`.
    CheckingPort { index: usize },
    /// To look for the assets of the candidate roots.
    LocatingRoot,
    /// To look for the changelog.
    LocatingChangelog,
    /// To create the scratch directory.
    CreatingTmp,
    /// To create the directory of the logs.
    CreatingLogs,
    /// To look for the configuration template and the user's copies of it.
    ProbingSeed,
    /// To copy the configuration template.
    Seeding,
    /// To look for the files that the services are started from.
    ProbingAssets,
    /// To read the host's environment.
    ReadingHostEnv,
    /// To read the user's environment file.
    ReadingEnvFile,
    /// To start `service`.
    Spawning { service: Service },
    /// To sample `service`, which was started and is not ready yet.
    Sampling { service: Service },
    /// Nothing more: every service is up.
    Running,
    /// Nothing more: the bootstrap has failed.
    Failed,
    /// Nothing more: the supervisor was shut down.
    Stopped,
}

/// The state of the supervisor.
pub struct ManagerModel {
    pub platform: Platform,
    /// The directories that the host reported.
    pub host: HostDirsView,
    pub phase: Phase,
    /// The runtime root, once it is found.
    pub root: Seq<char>,
    /// The changelog, once it is chosen.
    pub changelog: Seq<char>,
    /// The per-user data directory, once it is known.
    pub data_dir: Seq<char>,
    /// How the background task runner is started, once that is resolved.
    pub runner: ProcessSpecView,
    /// How the API server is started, once that is resolved.
    pub server: ProcessSpecView,
    /// The environment of the children, as far as it is built.
    pub env: Map<Seq<char>, Seq<char>>,
    /// The children that were started and not shut down, oldest first.
    pub processes: Seq<ManagedProcessView>,
    /// The handle of the child that was started last.
    pub current: u64,
    /// The clock reading at which the wait for that child began.
    pub began_ms: u64,
}

/// The loopback address on which every service listens.
pub open spec fn loopback() -> Seq<char> {
    "127.0.0.1"@
}

/// How many loopback ports must be free before anything is started.
pub open spec fn reserved_port_count() -> nat {
    3
}

/// The loopback ports that must be free, in the order in which they are tried.
pub open spec fn reserved_port(index: usize) -> u16 {
    if index == 0 {
        5274
    } else if index == 1 {
        5275
    } else {
        5276
    }
}

/// A process specification that says nothing yet.
pub open spec fn no_spec() -> ProcessSpecView {
    ProcessSpecView {
        executable: Seq::empty(),
        args: Seq::empty(),
        working_dir: Seq::empty(),
        name: Seq::empty(),
    }
}

/// The first state, and the first thing to do: try the first reserved port.
pub open spec fn begin(host: HostDirsView, platform: Platform) -> (ManagerModel, ActionView) {
    (
        ManagerModel {
            platform,
            host,
            phase: Phase::CheckingPort { index: 0 },
            root: Seq::empty(),
            changelog: Seq::empty(),
            data_dir: Seq::empty(),
            runner: no_spec(),
            server: no_spec(),
            env: Map::empty(),
            processes: Seq::empty(),
            current: 0,
            began_ms: 0,
        },
        ActionView::BindPort { port: reserved_port(0) },
    )
}

/// The bootstrap fails with `error`; what was started stays as it is.
pub open spec fn fail(m: ManagerModel, error: RuntimeErrorView) -> (ManagerModel, ActionView) {
    (ManagerModel { phase: Phase::Failed, ..m }, ActionView::Abort { error })
}

/// The event is ignored.
pub open spec fn reject(m: ManagerModel) -> (ManagerModel, ActionView) {
    (m, ActionView::Rejected)
}

/// The directory of the server inside the runtime root.
pub open spec fn server_dir(m: ManagerModel) -> Seq<char> {
    join_spec(m.root, "server"@, m.platform)
}

/// The directory in which the logs are kept.
pub open spec fn logs_dir(m: ManagerModel) -> Seq<char> {
    join_spec(m.data_dir, "logs"@, m.platform)
}

/// The scratch directory.
pub open spec fn tmp_dir(m: ManagerModel) -> Seq<char> {
    join_spec(m.data_dir, "tmp"@, m.platform)
}

/// The user's environment file.
pub open spec fn env_file(m: ManagerModel) -> Seq<char> {
    join_spec(m.data_dir, "runtime.env"@, m.platform)
}

/// The configuration template where the bundle is laid out flat.
pub open spec fn flat_template(root: Seq<char>, platform: Platform) -> Seq<char> {
    join_spec(join_spec(root, "data"@, platform), "runtime.env.example"@, platform)
}

/// The configuration template where the bundle is nested.
pub open spec fn nested_template(root: Seq<char>, platform: Platform) -> Seq<char> {
    join_spec(
        join_spec(
            join_spec(join_spec(root, "_up_"@, platform), "runtime"@, platform),
            "data"@,
            platform,
        ),
        "runtime.env.example"@,
        platform,
    )
}

/// The user's copy of the configuration template.
pub open spec fn local_template(data_dir: Seq<char>, platform: Platform) -> Seq<char> {
    join_spec(data_dir, "runtime.env.example"@, platform)
}

/// The paths whose existence decides what is seeded.
pub open spec fn seed_probe_paths(m: ManagerModel) -> Seq<Seq<char>> {
    seq![
        flat_template(m.root, m.platform),
        nested_template(m.root, m.platform),
        local_template(m.data_dir, m.platform),
        env_file(m),
    ]
}

/// The copies that seed the user's configuration: the bundled template,
/// the flat one where it exists and the nested one otherwise, is copied to
/// each of the user's two files that does not exist yet, and to neither
/// where the template itself does not exist. Nothing of the user's is
/// ever overwritten.
pub open spec fn seed_jobs(m: ManagerModel, present: Set<Seq<char>>) -> Seq<CopyJobView> {
    let bundled = if present.contains(flat_template(m.root, m.platform)) {
        flat_template(m.root, m.platform)
    } else {
        nested_template(m.root, m.platform)
    };
    let example = local_template(m.data_dir, m.platform);
    let first = if present.contains(bundled) && !present.contains(example) {
        seq![CopyJobView { from: bundled, to: example }]
    } else {
        Seq::empty()
    };
    let second = if present.contains(bundled) && !present.contains(env_file(m)) {
        seq![CopyJobView { from: bundled, to: env_file(m) }]
    } else {
        Seq::empty()
    };
    first + second
}

/// The paths whose existence decides how the services are started.
pub open spec fn asset_probe_paths(m: ManagerModel) -> Seq<Seq<char>> {
    required_assets(m.root, m.platform) + launcher_paths(
        server_dir(m),
        "background_runner"@,
        "background_runner.py"@,
        m.platform,
    ) + launcher_paths(server_dir(m), "server"@, "app.py"@, m.platform)
}

/// The error for a single missing file.
pub open spec fn missing(path: Seq<char>) -> RuntimeErrorView {
    RuntimeErrorView::MissingRuntimeAsset { launcher: None, paths: seq![path] }
}

/// How `service` is started.
pub open spec fn service_spec(m: ManagerModel, service: Service) -> ProcessSpecView {
    match service {
        Service::BackgroundRunner => m.runner,
        Service::Server => m.server,
        Service::Batch => ProcessSpecView {
            executable: batch_path(m.root, m.platform),
            args: Seq::empty(),
            working_dir: join_spec(m.root, "batch"@, m.platform),
            name: "batch"@,
        },
        Service::Updater => ProcessSpecView {
            executable: updater_path(m.root, m.platform),
            args: Seq::empty(),
            working_dir: join_spec(m.root, "updater"@, m.platform),
            name: "updater"@,
        },
    }
}

/// The next thing to do is to start `service`.
pub open spec fn start(m: ManagerModel, service: Service) -> (ManagerModel, ActionView) {
    (
        ManagerModel { phase: Phase::Spawning { service }, ..m },
        ActionView::Spawn {
            service,
            plan: launch_plan_spec(service_spec(m, service), m.env, logs_dir(m), m.platform),
        },
    )
}

/// The record of `service`, running under `handle`.
pub open spec fn managed(m: ManagerModel, service: Service, handle: u64) -> ManagedProcessView {
    ManagedProcessView {
        name: service.name_spec(),
        handle,
        stdout_log: log_path_spec(logs_dir(m), service.name_spec(), "stdout"@, m.platform),
        stderr_log: log_path_spec(logs_dir(m), service.name_spec(), "stderr"@, m.platform),
    }
}

/// Where `service` is tried, if it listens at all.
pub open spec fn endpoint(service: Service) -> Option<EndpointView> {
    match service.port_spec() {
        Some(port) => Some(EndpointView { host: loopback(), port }),
        None => None,
    }
}

/// The time that has passed since the wait began, going by a clock that
/// never runs backwards.
pub open spec fn elapsed_ms(m: ManagerModel, at_ms: u64) -> u64 {
    if at_ms >= m.began_ms {
        (at_ms - m.began_ms) as u64
    } else {
        0
    }
}

/// What a sample of `service` means.
pub open spec fn sample_verdict(m: ManagerModel, service: Service, event: EventView) -> VerdictView
    recommends
        event is Sampled,
{
    match service.port_spec() {
        Some(port) => network_verdict(
            service.name_spec(),
            event->connected,
            event->status,
            elapsed_ms(m, event->Sampled_at_ms),
            loopback(),
            port,
            service.timeout_ms_spec(),
            logs_dir(m),
            m.platform,
        ),
        None => liveness_verdict(
            service.name_spec(),
            event->status,
            elapsed_ms(m, event->Sampled_at_ms),
            service.timeout_ms_spec(),
            logs_dir(m),
            m.platform,
        ),
    }
}

/// After a reserved port was tried: the next port where it was free and
/// ports are left, the search for the root where it was the last, and
/// failure, with no other port tried, where it was busy.
pub open spec fn after_port(m: ManagerModel, index: usize, event: EventView) -> (
    ManagerModel,
    ActionView,
) {
    match event {
        EventView::PortFree => if index + 1 < reserved_port_count() {
            (
                ManagerModel { phase: Phase::CheckingPort { index: (index + 1) as usize }, ..m },
                ActionView::BindPort { port: reserved_port((index + 1) as usize) },
            )
        } else {
            (
                ManagerModel { phase: Phase::LocatingRoot, ..m },
                ActionView::Probe {
                    paths: root_probe_paths(root_candidates(m.host, m.platform), m.platform),
                },
            )
        },
        EventView::PortBusy => fail(m, RuntimeErrorView::PortInUse { port: reserved_port(index) }),
        _ => reject(m),
    }
}

/// After the candidates' assets were looked for: the first candidate that
/// holds them all is the root, and the changelog is looked for next.
pub open spec fn after_root_probe(m: ManagerModel, event: EventView) -> (ManagerModel, ActionView) {
    match event {
        EventView::Probed { present } => match chosen_root(
            root_candidates(m.host, m.platform),
            present,
            m.platform,
        ) {
            Some(root) => (
                ManagerModel { root, phase: Phase::LocatingChangelog, ..m },
                ActionView::Probe { paths: changelog_candidates_spec(m.host, root, m.platform) },
            ),
            None => fail(
                m,
                RuntimeErrorView::RuntimeRootNotFound {
                    checked: root_candidates(m.host, m.platform),
                },
            ),
        },
        _ => reject(m),
    }
}

/// After the changelog was looked for: it is chosen, and the directories in
/// the user's data directory are created next. Without a data directory the
/// bootstrap fails here.
pub open spec fn after_changelog_probe(m: ManagerModel, event: EventView) -> (
    ManagerModel,
    ActionView,
) {
    match event {
        EventView::Probed { present } => {
            let changelog = changelog_choice(
                changelog_candidates_spec(m.host, m.root, m.platform),
                present,
            );
            match m.host.data_dir {
                Some(data_dir) => {
                    let next = ManagerModel { changelog, data_dir, phase: Phase::CreatingTmp, ..m };
                    (next, ActionView::CreateDir { path: tmp_dir(next) })
                },
                None => fail(
                    ManagerModel { changelog, ..m },
                    RuntimeErrorView::FilesystemError {
                        operation: FsOperation::ResolveDataDir,
                        path: Seq::empty(),
                        detail: Seq::empty(),
                    },
                ),
            }
        },
        _ => reject(m),
    }
}

/// After the scratch directory was to be created.
pub open spec fn after_tmp(m: ManagerModel, event: EventView) -> (ManagerModel, ActionView) {
    match event {
        EventView::Done => (
            ManagerModel { phase: Phase::CreatingLogs, ..m },
            ActionView::CreateDir { path: logs_dir(m) },
        ),
        EventView::Failed { detail } => fail(
            m,
            RuntimeErrorView::FilesystemError {
                operation: FsOperation::CreateDataDir,
                path: tmp_dir(m),
                detail,
            },
        ),
        _ => reject(m),
    }
}

/// After the directory of the logs was to be created.
pub open spec fn after_logs(m: ManagerModel, event: EventView) -> (ManagerModel, ActionView) {
    match event {
        EventView::Done => (
            ManagerModel { phase: Phase::ProbingSeed, ..m },
            ActionView::Probe { paths: seed_probe_paths(m) },
        ),
        EventView::Failed { detail } => fail(
            m,
            RuntimeErrorView::FilesystemError {
                operation: FsOperation::CreateLogsDir,
                path: logs_dir(m),
                detail,
            },
        ),
        _ => reject(m),
    }
}

/// After the configuration template was looked for.
pub open spec fn after_seed_probe(m: ManagerModel, event: EventView) -> (ManagerModel, ActionView) {
    match event {
        EventView::Probed { present } => (
            ManagerModel { phase: Phase::Seeding, ..m },
            ActionView::CopyFiles { jobs: seed_jobs(m, present) },
        ),
        _ => reject(m),
    }
}

/// After the configuration template was to be copied: whether or not that
/// worked, the files of the services are looked for next.
pub open spec fn after_seeding(m: ManagerModel, event: EventView) -> (ManagerModel, ActionView) {
    match event {
        EventView::Done | EventView::Failed { .. } => (
            ManagerModel { phase: Phase::ProbingAssets, ..m },
            ActionView::Probe { paths: asset_probe_paths(m) },
        ),
        _ => reject(m),
    }
}

/// After the files of the services were looked for: each required asset
/// must exist and both launchers must resolve; then the computed defaults
/// of the environment stand, and the host's environment is read next.
pub open spec fn after_asset_probe(m: ManagerModel, event: EventView) -> (ManagerModel, ActionView) {
    match event {
        EventView::Probed { present } => {
            if !present.contains(updater_path(m.root, m.platform)) {
                fail(m, missing(updater_path(m.root, m.platform)))
            } else if !present.contains(batch_path(m.root, m.platform)) {
                fail(m, missing(batch_path(m.root, m.platform)))
            } else if !present.contains(index_path(m.root, m.platform)) {
                fail(m, missing(index_path(m.root, m.platform)))
            } else {
                match resolved_launcher(
                    server_dir(m),
                    "background_runner"@,
                    "background_runner.py"@,
                    present,
                    m.platform,
                ) {
                    Err(error) => fail(m, error),
                    Ok(runner) => match resolved_launcher(
                        server_dir(m),
                        "server"@,
                        "app.py"@,
                        present,
                        m.platform,
                    ) {
                        Err(error) => fail(m, error),
                        Ok(server) => (
                            ManagerModel {
                                runner,
                                server,
                                env: default_env(m.data_dir, server_dir(m), m.changelog, m.platform),
                                phase: Phase::ReadingHostEnv,
                                ..m
                            },
                            ActionView::ReadHostEnv { keys: host_override_keys_spec() },
                        ),
                    },
                }
            }
        },
        _ => reject(m),
    }
}

/// After the host's environment was read: it overrides the defaults of the
/// variables that it may override, and the user's file is read next.
pub open spec fn after_host_env(m: ManagerModel, event: EventView) -> (ManagerModel, ActionView) {
    match event {
        EventView::HostEnv { values } => (
            ManagerModel {
                env: with_host_overrides(m.env, host_override_keys_spec(), values),
                phase: Phase::ReadingEnvFile,
                ..m
            },
            ActionView::ReadFile { path: env_file(m) },
        ),
        _ => reject(m),
    }
}

/// After the user's environment file was read: what it says overrides
/// everything before it, and the first service is started. A file that does
/// not exist changes nothing; one that cannot be read, or that holds a line
/// that cannot be understood, ends the bootstrap.
pub open spec fn after_env_file(m: ManagerModel, event: EventView) -> (ManagerModel, ActionView) {
    match event {
        EventView::FileRead { content } => match content {
            FileContentView::Absent => start(m, Service::BackgroundRunner),
            FileContentView::Unreadable { detail } => fail(
                m,
                RuntimeErrorView::FilesystemError {
                    operation: FsOperation::ReadEnvFile,
                    path: env_file(m),
                    detail,
                },
            ),
            FileContentView::Text { content } => {
                let merged = merge_lines(m.env, lines_of(content), 0);
                let next = ManagerModel { env: merged.env, ..m };
                match merged.fault {
                    None => start(next, Service::BackgroundRunner),
                    Some(fault) => fail(
                        next,
                        RuntimeErrorView::MalformedEnvFile { line: fault.0 as usize, reason: fault.1 },
                    ),
                }
            },
        },
        _ => reject(m),
    }
}

/// After `service` was to be started: a child that runs is taken into the
/// supervisor's keeping and sampled at once.
pub open spec fn after_spawn(m: ManagerModel, service: Service, event: EventView) -> (
    ManagerModel,
    ActionView,
) {
    match event {
        EventView::Spawned { handle, at_ms } => (
            ManagerModel {
                processes: m.processes.push(managed(m, service, handle)),
                current: handle,
                began_ms: at_ms,
                phase: Phase::Sampling { service },
                ..m
            },
            ActionView::Sample { handle, after_ms: 0, connect: endpoint(service) },
        ),
        EventView::Failed { detail } => fail(
            m,
            RuntimeErrorView::SpawnFailed { executable: service_spec(m, service).executable, detail },
        ),
        EventView::LogOpenFailed { stream, detail } => fail(
            m,
            RuntimeErrorView::FilesystemError {
                operation: FsOperation::OpenLog,
                path: log_path_spec(logs_dir(m), service.name_spec(), stream.word_spec(), m.platform),
                detail,
            },
        ),
        _ => reject(m),
    }
}

/// After `service` was sampled: once it is ready the next service is
/// started, or the bootstrap is over where none is left; while nothing is
/// decided it is sampled again after the interval that the verdict names.
pub open spec fn after_sample(m: ManagerModel, service: Service, event: EventView) -> (
    ManagerModel,
    ActionView,
) {
    match event {
        EventView::Sampled { .. } => match sample_verdict(m, service, event) {
            VerdictView::Ready => match service.following_spec() {
                Some(next) => start(m, next),
                None => (ManagerModel { phase: Phase::Running, ..m }, ActionView::Finished),
            },
            VerdictView::Wait { millis } => (
                m,
                ActionView::Sample { handle: m.current, after_ms: millis, connect: endpoint(service) },
            ),
            VerdictView::Failed { error } => fail(m, error),
        },
        _ => reject(m),
    }
}

/// The next state and the action to take, for every state and every event.
/// An event that does not answer what was asked last is ignored; once the
/// bootstrap is over, one way or the other, every event is.
pub open spec fn step(m: ManagerModel, event: EventView) -> (ManagerModel, ActionView) {
    match m.phase {
        Phase::CheckingPort { index } => after_port(m, index, event),
        Phase::LocatingRoot => after_root_probe(m, event),
        Phase::LocatingChangelog => after_changelog_probe(m, event),
        Phase::CreatingTmp => after_tmp(m, event),
        Phase::CreatingLogs => after_logs(m, event),
        Phase::ProbingSeed => after_seed_probe(m, event),
        Phase::Seeding => after_seeding(m, event),
        Phase::ProbingAssets => after_asset_probe(m, event),
        Phase::ReadingHostEnv => after_host_env(m, event),
        Phase::ReadingEnvFile => after_env_file(m, event),
        Phase::Spawning { service } => after_spawn(m, service, event),
        Phase::Sampling { service } => after_sample(m, service, event),
        Phase::Running | Phase::Failed | Phase::Stopped => reject(m),
    }
}

/// The state after a shutdown: no child is kept, and nothing more happens.
pub open spec fn stopped(m: ManagerModel) -> ManagerModel {
    ManagerModel { processes: Seq::empty(), phase: Phase::Stopped, ..m }
}

/// A service is only ever started in one of two ways: the first one once
/// the environment is complete, and each of the others once the one before
/// it was sampled and found ready. No service is started before an earlier
/// one is ready, and none out of turn.
pub proof fn lemma_launch_order(m: ManagerModel, event: EventView)
    requires
        step(m, event).1 is Spawn,
    ensures
        match m.phase {
            Phase::ReadingEnvFile => step(m, event).1->service == Service::BackgroundRunner,
            Phase::Sampling { service } => service.following_spec() == Some(step(m, event).1->service)
                && sample_verdict(m, service, event) is Ready,
            _ => false,
        },
        step(m, event).0.phase == (Phase::Spawning { service: step(m, event).1->service }),
{
}

/// A busy port ends the bootstrap at once, with the error that names it:
/// the state reached ignores every further event, so no other port is
/// tried and nothing is started.
pub proof fn lemma_busy_port_ends_bootstrap(m: ManagerModel, index: usize, later: EventView)
    requires
        m.phase == (Phase::CheckingPort { index }),
    ensures
        step(m, EventView::PortBusy).1 == (ActionView::Abort {
            error: RuntimeErrorView::PortInUse { port: reserved_port(index) },
        }),
        step(m, EventView::PortBusy).0.phase == Phase::Failed,
        step(m, EventView::PortBusy).0.processes == m.processes,
        step(step(m, EventView::PortBusy).0, later) == reject(step(m, EventView::PortBusy).0),
{
}

/// Once the bootstrap is over, whether every service is up, the bootstrap
/// has failed or the supervisor was shut down, no event changes anything.
pub proof fn lemma_over_is_over(m: ManagerModel, event: EventView)
    requires
        m.phase == Phase::Running || m.phase == Phase::Failed || m.phase == Phase::Stopped,
    ensures
        step(m, event) == reject(m),
{
}

/// A failure leaves the children that were started as they are.
pub proof fn lemma_failure_keeps_children(m: ManagerModel, event: EventView)
    requires
        step(m, event).1 is Abort,
    ensures
        step(m, event).0.phase == Phase::Failed,
        step(m, event).0.processes == m.processes,
{
    match m.phase {
        Phase::CheckingPort { index } => {},
        Phase::LocatingRoot => {},
        Phase::LocatingChangelog => {},
        Phase::CreatingTmp => {},
        Phase::CreatingLogs => {},
        Phase::ProbingSeed => {},
        Phase::Seeding => {},
        Phase::ProbingAssets => {},
        Phase::ReadingHostEnv => {},
        Phase::ReadingEnvFile => {
            if event is FileRead {
                match event->content {
                    FileContentView::Text { content } => {
                        let merged = merge_lines(m.env, lines_of(content), 0);
                        let next = ManagerModel { env: merged.env, ..m };
                        assert(step(m, event) == match merged.fault {
                            None => start(next, Service::BackgroundRunner),
                            Some(fault) => fail(
                                next,
                                RuntimeErrorView::MalformedEnvFile {
                                    line: fault.0 as usize,
                                    reason: fault.1,
                                },
                            ),
                        });
                    },
                    _ => {},
                }
            }
        },
        Phase::Spawning { service } => {},
        Phase::Sampling { service } => {},
        _ => {},
    }
}

/// A service that is found to have ended while it is waited for fails the
/// bootstrap at once, as exited early and never as timed out, however
/// little or much of its time has passed. Only a connection that was made
/// before the question was asked counts for more.
pub proof fn lemma_early_exit_aborts(
    m: ManagerModel,
    service: Service,
    connected: bool,
    report: ExitReportView,
    stderr: Option<Seq<char>>,
    at_ms: u64,
)
    requires
        m.phase == (Phase::Sampling { service }),
        !connected || service.port_spec() is None,
    ensures
        step(
            m,
            EventView::Sampled {
                connected,
                status: ChildStatusView::Exited { report, stderr },
                at_ms,
            },
        ) == fail(
            m,
            exited_early(
                service.name_spec(),
                report,
                endpoint(service),
                logs_dir(m),
                stderr,
                m.platform,
            ),
        ),
        exited_early(service.name_spec(), report, endpoint(service), logs_dir(m), stderr, m.platform)
            is ProcessExitedEarly,
{
}

/// Seeding never overwrites: every copy goes to a file that was found not
/// to exist, and comes from a template that was found to exist.
pub proof fn lemma_seed_never_overwrites(m: ManagerModel, present: Set<Seq<char>>, i: int)
    requires
        0 <= i < seed_jobs(m, present).len(),
    ensures
        !present.contains(seed_jobs(m, present)[i].to),
        present.contains(seed_jobs(m, present)[i].from),
        seed_jobs(m, present)[i].to == local_template(m.data_dir, m.platform) || seed_jobs(
            m,
            present,
        )[i].to == env_file(m),
{
}

/// After a shutdown no child is kept, and a second shutdown changes
/// nothing: it finds no child to give up. Nor does any event bring a child
/// back.
pub proof fn lemma_shutdown_idempotent(m: ManagerModel, event: EventView)
    ensures
        stopped(m).processes.len() == 0,
        stopped(stopped(m)) == stopped(m),
        step(stopped(m), event) == reject(stopped(m)),
{
}

/// The names of the children in `processes`, oldest first.
pub open spec fn started_names(processes: Seq<ManagedProcessView>) -> Seq<Seq<char>> {
    Seq::new(processes.len(), |i: int| processes[i].name)
}

/// Whether the children in the supervisor's keeping are what the phase
/// calls for: the services in their order, as many as were started.
pub open spec fn in_order(m: ManagerModel) -> bool {
    let started = started_names(m.processes);
    &&& started.len() <= 4
    &&& started == service_names().take(started.len() as int)
    &&& match m.phase {
        Phase::Spawning { service } => started.len() == service.rank(),
        Phase::Sampling { service } => started.len() == service.rank() + 1 && m.processes.last().handle
            == m.current,
        Phase::Running => started.len() == 4,
        Phase::Failed => true,
        _ => started.len() == 0,
    }
}

/// The supervisor's keeping is in order from the first state on and stays
/// so with every event and with a shutdown. So whenever the bootstrap has
/// succeeded, exactly the four services are kept, in the order in which
/// they were started.
pub proof fn lemma_in_order(host: HostDirsView, platform: Platform, m: ManagerModel, event: EventView)
    ensures
        in_order(begin(host, platform).0),
        in_order(m) ==> in_order(step(m, event).0),
        in_order(m) ==> in_order(stopped(m)),
        in_order(m) && m.phase == Phase::Running ==> started_names(m.processes) == service_names(),
{
    assert(started_names(begin(host, platform).0.processes) == service_names().take(0));
    assert(started_names(stopped(m).processes) == service_names().take(0));
    if in_order(m) {
        let next = step(m, event).0;
        let started = started_names(m.processes);
        match m.phase {
            Phase::Spawning { service } => {
                if event is Spawned {
                    let record = managed(m, service, event->handle);
                    assert(next.processes == m.processes.push(record));
                    assert(started_names(next.processes) == started.push(service.name_spec()));
                    assert(service_names()[service.rank() as int] == service.name_spec());
                    assert(started.push(service.name_spec()) == service_names().take(
                        service.rank() as int + 1,
                    ));
                }
            },
            Phase::Sampling { service } => {},
            _ => {},
        }
        if m.phase == Phase::Running {
            assert(service_names().take(4) == service_names());
        }
    }
}

/// The state that is reached from `m` when `events` are reported one after
/// the other.
pub open spec fn run(m: ManagerModel, events: Seq<EventView>) -> ManagerModel
    decreases events.len(),
{
    if events.len() == 0 {
        m
    } else {
        step(run(m, events.drop_last()), events.last()).0
    }
}

/// The launches that were asked for on the way from `m` through `events`,
/// in their order: each service with the plan it was to be started by.
pub open spec fn launches(m: ManagerModel, events: Seq<EventView>) -> Seq<(Service, LaunchPlanView)>
    decreases events.len(),
{
    if events.len() == 0 {
        Seq::empty()
    } else {
        let before = launches(m, events.drop_last());
        match step(run(m, events.drop_last()), events.last()).1 {
            ActionView::Spawn { service, plan } => before.push((service, plan)),
            _ => before,
        }
    }
}

/// Whether the launches `asked` are what the state `m` calls for: the
/// services in their order, as many as the phase has come to, each by the
/// plan that the state gives for it, with the one environment.
pub open spec fn launched_in_order(m: ManagerModel, asked: Seq<(Service, LaunchPlanView)>) -> bool {
    &&& asked.len() <= 4
    &&& forall|i: int|
        0 <= i < asked.len() ==> (#[trigger] asked[i]).0.rank() == i && asked[i].1
            == launch_plan_spec(service_spec(m, asked[i].0), m.env, logs_dir(m), m.platform)
    &&& match m.phase {
        Phase::Spawning { service } => asked.len() == service.rank() + 1,
        Phase::Sampling { service } => asked.len() == service.rank() + 1,
        Phase::Running => asked.len() == 4,
        Phase::Failed => true,
        Phase::Stopped => true,
        _ => asked.len() == 0,
    }
}

/// One event keeps the launches in order.
proof fn lemma_step_keeps_launches(
    m: ManagerModel,
    asked: Seq<(Service, LaunchPlanView)>,
    event: EventView,
)
    requires
        launched_in_order(m, asked),
    ensures
        launched_in_order(
            step(m, event).0,
            match step(m, event).1 {
                ActionView::Spawn { service, plan } => asked.push((service, plan)),
                _ => asked,
            },
        ),
{
    let next = step(m, event).0;
    let after = match step(m, event).1 {
        ActionView::Spawn { service, plan } => asked.push((service, plan)),
        _ => asked,
    };
    match m.phase {
        Phase::ReadingEnvFile => {
            if event is FileRead {
                match event->content {
                    FileContentView::Text { content } => {
                        let merged = merge_lines(m.env, lines_of(content), 0);
                        let kept = ManagerModel { env: merged.env, ..m };
                        assert(step(m, event) == match merged.fault {
                            None => start(kept, Service::BackgroundRunner),
                            Some(fault) => fail(
                                kept,
                                RuntimeErrorView::MalformedEnvFile {
                                    line: fault.0 as usize,
                                    reason: fault.1,
                                },
                            ),
                        });
                    },
                    _ => {},
                }
            }
            assert(asked.len() == 0);
        },
        Phase::Spawning { service } => {
            assert(after == asked);
            assert forall|i: int| 0 <= i < after.len() implies (#[trigger] after[i]).0.rank() == i
                && after[i].1 == launch_plan_spec(
                service_spec(next, after[i].0),
                next.env,
                logs_dir(next),
                next.platform,
            ) by {
                assert(service_spec(next, asked[i].0) == service_spec(m, asked[i].0));
            }
        },
        Phase::Sampling { service } => {
            assert forall|i: int| 0 <= i < after.len() implies (#[trigger] after[i]).0.rank() == i
                && after[i].1 == launch_plan_spec(
                service_spec(next, after[i].0),
                next.env,
                logs_dir(next),
                next.platform,
            ) by {
                if i < asked.len() {
                    assert(after[i] == asked[i]);
                    assert(service_spec(next, asked[i].0) == service_spec(m, asked[i].0));
                }
            }
        },
        Phase::Running | Phase::Failed | Phase::Stopped => {},
        _ => {
            assert(asked.len() == 0);
        },
    }
}

/// A bootstrap that has succeeded, whatever the events that led there, has
/// asked for exactly four launches: the background runner, the server, the
/// batch worker and the updater, in that order, each by the plan that the
/// final state gives for it and all with the one final environment. The
/// four children are in the supervisor's keeping, in the same order.
/// (`lemma_launch_order` adds that each launch after the first answered a
/// sample that found the service before it ready.)
pub proof fn lemma_bootstrap_run(host: HostDirsView, platform: Platform, events: Seq<EventView>)
    ensures
        launched_in_order(
            run(begin(host, platform).0, events),
            launches(begin(host, platform).0, events),
        ),
        in_order(run(begin(host, platform).0, events)),
        run(begin(host, platform).0, events).phase == Phase::Running ==> {
            let reached = run(begin(host, platform).0, events);
            let asked = launches(begin(host, platform).0, events);
            &&& asked.len() == 4
            &&& asked[0].0 == Service::BackgroundRunner
            &&& asked[1].0 == Service::Server
            &&& asked[2].0 == Service::Batch
            &&& asked[3].0 == Service::Updater
            &&& forall|i: int| 0 <= i < 4 ==> (#[trigger] asked[i]).1.env == reached.env
            &&& started_names(reached.processes) == service_names()
        },
    decreases events.len(),
{
    let first = begin(host, platform).0;
    if events.len() == 0 {
        lemma_in_order(host, platform, first, EventView::Done);
    } else {
        lemma_bootstrap_run(host, platform, events.drop_last());
        let before = run(first, events.drop_last());
        lemma_step_keeps_launches(before, launches(first, events.drop_last()), events.last());
        lemma_in_order(host, platform, before, events.last());
    }
    let reached = run(first, events);
    let asked = launches(first, events);
    if reached.phase == Phase::Running {
        lemma_in_order(host, platform, reached, EventView::Done);
        assert(asked[0].0.rank() == 0);
        assert(asked[1].0.rank() == 1);
        assert(asked[2].0.rank() == 2);
        assert(asked[3].0.rank() == 3);
    }
}

} // verus!
