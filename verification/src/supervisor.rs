//! The supervisor: it owns the children that were started, brings the
//! services up in their order, and shuts them down.

use vstd::prelude::*;
use vstd::string::StringExecFns;
use crate::env::apply_host_env_overrides;
use crate::env::build_runtime_env;
use crate::env::host_override_keys;
use crate::env::merge_env_file;
use crate::env::EnvironmentSet;
use crate::error::Endpoint;
use crate::error::FsOperation;
use crate::error::RuntimeError;
use crate::launcher::launch_plan;
use crate::launcher::log_path;
use crate::launcher::resolve_background_runner_launcher;
use crate::launcher::resolve_server_launcher;
use crate::launcher::ProcessSpec;
use crate::model::after_asset_probe;
use crate::model::after_changelog_probe;
use crate::model::after_env_file;
use crate::model::after_host_env;
use crate::model::after_logs;
use crate::model::after_port;
use crate::model::after_root_probe;
use crate::model::after_sample;
use crate::model::after_seed_probe;
use crate::model::after_seeding;
use crate::model::after_spawn;
use crate::model::after_tmp;
use crate::model::asset_probe_paths;
use crate::model::begin;
use crate::model::endpoint;
use crate::model::env_file;
use crate::model::fail;
use crate::model::logs_dir;
use crate::model::no_spec;
use crate::model::reserved_port;
use crate::model::seed_jobs;
use crate::model::seed_probe_paths;
use crate::model::server_dir;
use crate::model::service_spec;
use crate::model::start;
use crate::model::step;
use crate::model::stopped;
use crate::model::tmp_dir;
use crate::model::ManagerModel;
use crate::model::Phase;
use crate::paths::join;
use crate::platform::exe_name;
use crate::platform::Platform;
use crate::protocol::Action;
use crate::protocol::CopyJob;
use crate::protocol::CopyJobView;
use crate::protocol::Event;
use crate::protocol::FileContent;
use crate::protocol::ManagedProcess;
use crate::protocol::ManagedProcessView;
use crate::protocol::Service;
use crate::readiness::wait_for_http_with_process_state;
use crate::readiness::wait_for_process_running;
use crate::readiness::Verdict;
use crate::resolver::batch_exe_path;
use crate::resolver::candidate_runtime_roots;
use crate::resolver::changelog_candidates;
use crate::resolver::ensure_exists;
use crate::resolver::index_html_path;
use crate::resolver::pick_changelog;
use crate::resolver::resolve_runtime_root;
use crate::resolver::runtime_root_probes;
use crate::resolver::updater_exe_path;
use crate::resolver::HostDirs;
use crate::snapshot::FileSnapshot;

verus! {

/// The loopback port number `index` of those that must be free.
pub fn reserved_port_at(index: usize) -> (port: u16)
    ensures
        port == reserved_port(index),
{
    if index == 0 {
        5274
    } else if index == 1 {
        5275
    } else {
        5276
    }
}

/// Where `service` is tried, if it listens at all.
fn endpoint_of(service: Service) -> (target: Option<Endpoint>)
    ensures
        target.deep_view() == endpoint(service),
{
    match service.port() {
        Some(port) => Some(Endpoint { host: String::from_str("127.0.0.1"), port }),
        None => None,
    }
}

/// The single authority over the supervised services.
#[derive(Debug)]
pub struct RuntimeManager {
    platform: Platform,
    host: HostDirs,
    phase: Phase,
    root: String,
    changelog: String,
    data_dir: String,
    runner: ProcessSpec,
    server: ProcessSpec,
    env: EnvironmentSet,
    processes: Vec<ManagedProcess>,
    current: u64,
    began_ms: u64,
}

impl View for RuntimeManager {
    type V = ManagerModel;

    closed spec fn view(&self) -> ManagerModel {
        ManagerModel {
            platform: self.platform,
            host: self.host@,
            phase: self.phase,
            root: self.root@,
            changelog: self.changelog@,
            data_dir: self.data_dir@,
            runner: self.runner@,
            server: self.server@,
            env: self.env@,
            processes: self.processes.deep_view(),
            current: self.current,
            began_ms: self.began_ms,
        }
    }
}

/// A process specification that says nothing yet.
fn blank_spec() -> (spec: ProcessSpec)
    ensures
        spec@ == no_spec(),
{
    let args: Vec<String> = Vec::new();
    assert(args.deep_view() == Seq::<Seq<char>>::empty());
    ProcessSpec { executable: String::new(), args, working_dir: String::new(), name: String::new() }
}

impl RuntimeManager {
    /// Begins to bring the services up. Nothing is started before the three
    /// loopback ports have been found free: the first action is to try the
    /// first of them.
    pub fn bootstrap(host: HostDirs, platform: Platform) -> (begun: (RuntimeManager, Action))
        ensures
            (begun.0@, begun.1@) == begin(host@, platform),
    {
        let processes: Vec<ManagedProcess> = Vec::new();
        assert(processes.deep_view() == Seq::<ManagedProcessView>::empty());
        let manager = RuntimeManager {
            platform,
            host,
            phase: Phase::CheckingPort { index: 0 },
            root: String::new(),
            changelog: String::new(),
            data_dir: String::new(),
            runner: blank_spec(),
            server: blank_spec(),
            env: EnvironmentSet::new(),
            processes,
            current: 0,
            began_ms: 0,
        };
        (manager, Action::BindPort { port: reserved_port_at(0) })
    }

    /// Where the bootstrap stands.
    pub fn phase(&self) -> (phase: Phase)
        ensures
            phase == self@.phase,
    {
        self.phase
    }

    /// How many children are in the supervisor's keeping.
    pub fn process_count(&self) -> (count: usize)
        ensures
            count == self@.processes.len(),
    {
        self.processes.len()
    }

    /// The children in the supervisor's keeping, oldest first.
    pub fn processes(&self) -> (list: &Vec<ManagedProcess>)
        ensures
            list.deep_view() == self@.processes,
    {
        &self.processes
    }

    /// The environment of the children, as far as it is built.
    pub fn environment(&self) -> (env: &EnvironmentSet)
        ensures
            env@ == self@.env,
    {
        &self.env
    }

    /// The runtime root; empty until it is found.
    pub fn runtime_root(&self) -> (root: &String)
        ensures
            root@ == self@.root,
    {
        &self.root
    }

    /// Ends the bootstrap with `error`.
    fn fail(&mut self, error: RuntimeError) -> (action: Action)
        ensures
            (final(self)@, action@) == fail(old(self)@, error@),
    {
        self.phase = Phase::Failed;
        Action::Abort { error }
    }

    fn server_dir(&self) -> (dir: String)
        ensures
            dir@ == server_dir(self@),
    {
        join(self.root.as_str(), "server", self.platform)
    }

    fn logs_dir(&self) -> (dir: String)
        ensures
            dir@ == logs_dir(self@),
    {
        join(self.data_dir.as_str(), "logs", self.platform)
    }

    fn tmp_dir(&self) -> (dir: String)
        ensures
            dir@ == tmp_dir(self@),
    {
        join(self.data_dir.as_str(), "tmp", self.platform)
    }

    fn env_file(&self) -> (path: String)
        ensures
            path@ == env_file(self@),
    {
        join(self.data_dir.as_str(), "runtime.env", self.platform)
    }

    /// How `service` is started.
    fn service_spec(&self, service: Service) -> (spec: ProcessSpec)
        ensures
            spec@ == service_spec(self@, service),
    {
        match service {
            Service::BackgroundRunner => self.runner.duplicate(),
            Service::Server => self.server.duplicate(),
            Service::Batch => {
                let args: Vec<String> = Vec::new();
                assert(args.deep_view() == Seq::<Seq<char>>::empty());
                ProcessSpec {
                    executable: batch_exe_path(self.root.as_str(), self.platform),
                    args,
                    working_dir: join(self.root.as_str(), "batch", self.platform),
                    name: String::from_str("batch"),
                }
            },
            Service::Updater => {
                let args: Vec<String> = Vec::new();
                assert(args.deep_view() == Seq::<Seq<char>>::empty());
                ProcessSpec {
                    executable: updater_exe_path(self.root.as_str(), self.platform),
                    args,
                    working_dir: join(self.root.as_str(), "updater", self.platform),
                    name: String::from_str("updater"),
                }
            },
        }
    }

    /// Asks for `service` to be started.
    fn start(&mut self, service: Service) -> (action: Action)
        ensures
            (final(self)@, action@) == start(old(self)@, service),
    {
        let spec = self.service_spec(service);
        let logs = self.logs_dir();
        let plan = launch_plan(&spec, &self.env, logs.as_str(), self.platform);
        self.phase = Phase::Spawning { service };
        Action::Spawn { service, plan }
    }

    /// Checks that the loopback ports are free, one at a time, and gives up
    /// at the first that is not.
    fn ensure_ports_available(&mut self, index: usize, event: Event) -> (action: Action)
        ensures
            (final(self)@, action@) == after_port(old(self)@, index, event@),
    {
        match event {
            Event::PortFree => {
                if index < 2 {
                    self.phase = Phase::CheckingPort { index: index + 1 };
                    Action::BindPort { port: reserved_port_at(index + 1) }
                } else {
                    let candidates = candidate_runtime_roots(&self.host, self.platform);
                    self.phase = Phase::LocatingRoot;
                    Action::Probe { paths: runtime_root_probes(&candidates, self.platform) }
                }
            },
            Event::PortBusy => self.fail(RuntimeError::PortInUse { port: reserved_port_at(index) }),
            _ => Action::Rejected,
        }
    }

    fn locate_root(&mut self, event: Event) -> (action: Action)
        ensures
            (final(self)@, action@) == after_root_probe(old(self)@, event@),
    {
        match event {
            Event::Probed { present } => {
                let snapshot = FileSnapshot::new(present);
                let candidates = candidate_runtime_roots(&self.host, self.platform);
                match resolve_runtime_root(&candidates, &snapshot, self.platform) {
                    Ok(root) => {
                        let paths = changelog_candidates(&self.host, root.as_str(), self.platform);
                        self.root = root;
                        self.phase = Phase::LocatingChangelog;
                        Action::Probe { paths }
                    },
                    Err(error) => self.fail(error),
                }
            },
            _ => Action::Rejected,
        }
    }

    fn locate_changelog(&mut self, event: Event) -> (action: Action)
        ensures
            (final(self)@, action@) == after_changelog_probe(old(self)@, event@),
    {
        match event {
            Event::Probed { present } => {
                let snapshot = FileSnapshot::new(present);
                let candidates = changelog_candidates(&self.host, self.root.as_str(), self.platform);
                self.changelog = pick_changelog(&candidates, &snapshot);
                let data_dir = match &self.host.data_dir {
                    Some(dir) => Some(dir.clone()),
                    None => None,
                };
                match data_dir {
                    Some(dir) => {
                        self.data_dir = dir;
                        self.phase = Phase::CreatingTmp;
                        Action::CreateDir { path: self.tmp_dir() }
                    },
                    None => self.fail(
                        RuntimeError::FilesystemError {
                            operation: FsOperation::ResolveDataDir,
                            path: String::new(),
                            detail: String::new(),
                        },
                    ),
                }
            },
            _ => Action::Rejected,
        }
    }

    fn create_tmp(&mut self, event: Event) -> (action: Action)
        ensures
            (final(self)@, action@) == after_tmp(old(self)@, event@),
    {
        match event {
            Event::Done => {
                self.phase = Phase::CreatingLogs;
                Action::CreateDir { path: self.logs_dir() }
            },
            Event::Failed { detail } => {
                let path = self.tmp_dir();
                self.fail(
                    RuntimeError::FilesystemError {
                        operation: FsOperation::CreateDataDir,
                        path,
                        detail,
                    },
                )
            },
            _ => Action::Rejected,
        }
    }

    fn create_logs(&mut self, event: Event) -> (action: Action)
        ensures
            (final(self)@, action@) == after_logs(old(self)@, event@),
    {
        match event {
            Event::Done => {
                let root = self.root.as_str();
                let data = join(root, "data", self.platform);
                let up = join(root, "_up_", self.platform);
                let nested = join(up.as_str(), "runtime", self.platform);
                let nested_data = join(nested.as_str(), "data", self.platform);
                let mut paths: Vec<String> = Vec::new();
                paths.push(join(data.as_str(), "runtime.env.example", self.platform));
                paths.push(join(nested_data.as_str(), "runtime.env.example", self.platform));
                paths.push(join(self.data_dir.as_str(), "runtime.env.example", self.platform));
                paths.push(self.env_file());
                assert(paths.deep_view() == seed_probe_paths(self@));
                self.phase = Phase::ProbingSeed;
                Action::Probe { paths }
            },
            Event::Failed { detail } => {
                let path = self.logs_dir();
                self.fail(
                    RuntimeError::FilesystemError {
                        operation: FsOperation::CreateLogsDir,
                        path,
                        detail,
                    },
                )
            },
            _ => Action::Rejected,
        }
    }

    fn plan_seed(&mut self, event: Event) -> (action: Action)
        ensures
            (final(self)@, action@) == after_seed_probe(old(self)@, event@),
    {
        match event {
            Event::Probed { present } => {
                let snapshot = FileSnapshot::new(present);
                let root = self.root.as_str();
                let data = join(root, "data", self.platform);
                let flat = join(data.as_str(), "runtime.env.example", self.platform);
                let bundled = if snapshot.holds(flat.as_str()) {
                    flat
                } else {
                    let up = join(root, "_up_", self.platform);
                    let nested = join(up.as_str(), "runtime", self.platform);
                    let nested_data = join(nested.as_str(), "data", self.platform);
                    join(nested_data.as_str(), "runtime.env.example", self.platform)
                };
                let example = join(self.data_dir.as_str(), "runtime.env.example", self.platform);
                let local = self.env_file();
                let mut jobs: Vec<CopyJob> = Vec::new();
                assert(jobs.deep_view() == Seq::<CopyJobView>::empty());
                let have = snapshot.holds(bundled.as_str());
                let ghost source = bundled@;
                let ghost target = example@;
                let ghost own = local@;
                if have && !snapshot.holds(example.as_str()) {
                    jobs.push(CopyJob { from: bundled.clone(), to: example });
                    assert(jobs.deep_view() == seq![
                        CopyJobView { from: source, to: target },
                    ]);
                }
                let ghost first = jobs.deep_view();
                if have && !snapshot.holds(local.as_str()) {
                    jobs.push(CopyJob { from: bundled, to: local });
                    assert(jobs.deep_view() == first + seq![
                        CopyJobView { from: source, to: own },
                    ]);
                } else {
                    assert(jobs.deep_view() == first + Seq::<CopyJobView>::empty());
                }
                assert(jobs.deep_view() == seed_jobs(self@, snapshot@));
                self.phase = Phase::Seeding;
                Action::CopyFiles { jobs }
            },
            _ => Action::Rejected,
        }
    }

    fn after_seed(&mut self, event: Event) -> (action: Action)
        ensures
            (final(self)@, action@) == after_seeding(old(self)@, event@),
    {
        match event {
            Event::Done | Event::Failed { .. } => {
                let root = self.root.as_str();
                let server = self.server_dir();
                let python_dir = join(server.as_str(), "python", self.platform);
                let mut paths: Vec<String> = Vec::new();
                paths.push(updater_exe_path(root, self.platform));
                paths.push(batch_exe_path(root, self.platform));
                paths.push(index_html_path(root, self.platform));
                paths.push(
                    join(
                        server.as_str(),
                        exe_name("background_runner", self.platform).as_str(),
                        self.platform,
                    ),
                );
                paths.push(
                    join(
                        python_dir.as_str(),
                        exe_name("python", self.platform).as_str(),
                        self.platform,
                    ),
                );
                paths.push(join(server.as_str(), "background_runner.py", self.platform));
                paths.push(
                    join(
                        server.as_str(),
                        exe_name("server", self.platform).as_str(),
                        self.platform,
                    ),
                );
                paths.push(
                    join(
                        python_dir.as_str(),
                        exe_name("python", self.platform).as_str(),
                        self.platform,
                    ),
                );
                paths.push(join(server.as_str(), "app.py", self.platform));
                assert(paths.deep_view() == asset_probe_paths(self@));
                self.phase = Phase::ProbingAssets;
                Action::Probe { paths }
            },
            _ => Action::Rejected,
        }
    }

    fn resolve_services(&mut self, event: Event) -> (action: Action)
        ensures
            (final(self)@, action@) == after_asset_probe(old(self)@, event@),
    {
        match event {
            Event::Probed { present } => {
                let snapshot = FileSnapshot::new(present);
                let updater = updater_exe_path(self.root.as_str(), self.platform);
                match ensure_exists(updater.as_str(), &snapshot) {
                    Err(error) => {
                        return self.fail(error);
                    },
                    Ok(_) => {},
                }
                let batch = batch_exe_path(self.root.as_str(), self.platform);
                match ensure_exists(batch.as_str(), &snapshot) {
                    Err(error) => {
                        return self.fail(error);
                    },
                    Ok(_) => {},
                }
                let index = index_html_path(self.root.as_str(), self.platform);
                match ensure_exists(index.as_str(), &snapshot) {
                    Err(error) => {
                        return self.fail(error);
                    },
                    Ok(_) => {},
                }
                let server = self.server_dir();
                let runner = match resolve_background_runner_launcher(
                    server.as_str(),
                    &snapshot,
                    self.platform,
                ) {
                    Err(error) => {
                        return self.fail(error);
                    },
                    Ok(spec) => spec,
                };
                let api = match resolve_server_launcher(server.as_str(), &snapshot, self.platform) {
                    Err(error) => {
                        return self.fail(error);
                    },
                    Ok(spec) => spec,
                };
                self.env = build_runtime_env(
                    self.data_dir.as_str(),
                    server.as_str(),
                    self.changelog.as_str(),
                    self.platform,
                );
                self.runner = runner;
                self.server = api;
                self.phase = Phase::ReadingHostEnv;
                Action::ReadHostEnv { keys: host_override_keys() }
            },
            _ => Action::Rejected,
        }
    }

    fn layer_host_env(&mut self, event: Event) -> (action: Action)
        ensures
            (final(self)@, action@) == after_host_env(old(self)@, event@),
    {
        match event {
            Event::HostEnv { values } => {
                let keys = host_override_keys();
                apply_host_env_overrides(&mut self.env, &keys, &values);
                self.phase = Phase::ReadingEnvFile;
                Action::ReadFile { path: self.env_file() }
            },
            _ => Action::Rejected,
        }
    }

    fn layer_env_file(&mut self, event: Event) -> (action: Action)
        ensures
            (final(self)@, action@) == after_env_file(old(self)@, event@),
    {
        match event {
            Event::FileRead { content } => match content {
                FileContent::Absent => self.start(Service::BackgroundRunner),
                FileContent::Unreadable { detail } => {
                    let path = self.env_file();
                    self.fail(
                        RuntimeError::FilesystemError {
                            operation: FsOperation::ReadEnvFile,
                            path,
                            detail,
                        },
                    )
                },
                FileContent::Text { content } => {
                    match merge_env_file(&mut self.env, content.as_str()) {
                        Ok(_) => self.start(Service::BackgroundRunner),
                        Err(error) => self.fail(error),
                    }
                },
            },
            _ => Action::Rejected,
        }
    }

    fn record_spawn(&mut self, service: Service, event: Event) -> (action: Action)
        ensures
            (final(self)@, action@) == after_spawn(old(self)@, service, event@),
    {
        match event {
            Event::Spawned { handle, at_ms } => {
                let logs = self.logs_dir();
                let ghost before = self.processes.deep_view();
                let process = ManagedProcess {
                    name: String::from_str(service.name()),
                    handle,
                    stdout_log: log_path(logs.as_str(), service.name(), "stdout", self.platform),
                    stderr_log: log_path(logs.as_str(), service.name(), "stderr", self.platform),
                };
                let ghost record = process@;
                self.processes.push(process);
                assert(self.processes.deep_view() == before.push(record));
                self.current = handle;
                self.began_ms = at_ms;
                self.phase = Phase::Sampling { service };
                Action::Sample { handle, after_ms: 0, connect: endpoint_of(service) }
            },
            Event::Failed { detail } => {
                let spec = self.service_spec(service);
                self.fail(RuntimeError::SpawnFailed { executable: spec.executable, detail })
            },
            Event::LogOpenFailed { stream, detail } => {
                let logs = self.logs_dir();
                let path = log_path(logs.as_str(), service.name(), stream.word(), self.platform);
                self.fail(
                    RuntimeError::FilesystemError { operation: FsOperation::OpenLog, path, detail },
                )
            },
            _ => Action::Rejected,
        }
    }

    fn judge_sample(&mut self, service: Service, event: Event) -> (action: Action)
        ensures
            (final(self)@, action@) == after_sample(old(self)@, service, event@),
    {
        match event {
            Event::Sampled { connected, status, at_ms } => {
                let elapsed: u64 = if at_ms >= self.began_ms {
                    at_ms - self.began_ms
                } else {
                    0
                };
                let logs = self.logs_dir();
                let verdict = match service.port() {
                    Some(port) => wait_for_http_with_process_state(
                        service.name(),
                        connected,
                        status,
                        elapsed,
                        "127.0.0.1",
                        port,
                        service.timeout_ms(),
                        logs.as_str(),
                        self.platform,
                    ),
                    None => wait_for_process_running(
                        service.name(),
                        status,
                        elapsed,
                        service.timeout_ms(),
                        logs.as_str(),
                        self.platform,
                    ),
                };
                match verdict {
                    Verdict::Ready => match service.following() {
                        Some(next) => self.start(next),
                        None => {
                            self.phase = Phase::Running;
                            Action::Finished
                        },
                    },
                    Verdict::Wait { millis } => Action::Sample {
                        handle: self.current,
                        after_ms: millis,
                        connect: endpoint_of(service),
                    },
                    Verdict::Failed { error } => self.fail(error),
                }
            },
            _ => Action::Rejected,
        }
    }

    /// Takes the driver's report on the action that was asked for last, and
    /// says what to do next.
    pub fn advance(&mut self, event: Event) -> (action: Action)
        ensures
            (final(self)@, action@) == step(old(self)@, event@),
    {
        match self.phase {
            Phase::CheckingPort { index } => self.ensure_ports_available(index, event),
            Phase::LocatingRoot => self.locate_root(event),
            Phase::LocatingChangelog => self.locate_changelog(event),
            Phase::CreatingTmp => self.create_tmp(event),
            Phase::CreatingLogs => self.create_logs(event),
            Phase::ProbingSeed => self.plan_seed(event),
            Phase::Seeding => self.after_seed(event),
            Phase::ProbingAssets => self.resolve_services(event),
            Phase::ReadingHostEnv => self.layer_host_env(event),
            Phase::ReadingEnvFile => self.layer_env_file(event),
            Phase::Spawning { service } => self.record_spawn(service, event),
            Phase::Sampling { service } => self.judge_sample(service, event),
            Phase::Running => Action::Rejected,
            Phase::Failed => Action::Rejected,
            Phase::Stopped => Action::Rejected,
        }
    }

    /// Gives up every child in the supervisor's keeping, for the driver to
    /// terminate, and ends whatever bootstrap was under way. A second call
    /// finds nothing to give up.
    pub fn shutdown_all(&mut self) -> (released: Vec<ManagedProcess>)
        ensures
            final(self)@ == stopped(old(self)@),
            released.deep_view() == old(self)@.processes,
            final(self)@.processes.len() == 0,
    {
        let mut released: Vec<ManagedProcess> = Vec::new();
        assert(released.deep_view() == Seq::<ManagedProcessView>::empty());
        core::mem::swap(&mut self.processes, &mut released);
        self.phase = Phase::Stopped;
        released
    }
}

} // verus!
