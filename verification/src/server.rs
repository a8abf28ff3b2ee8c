//! One supervised server: its declaration, and whether a container runs
//! for it.

use crate::arg_builder::{ArgBuilder, ArgBuilderView};
use crate::clock::{CalendarTime, Timestamp};
use crate::config::{clone_list, Config, FilledInstanceConfig, FilledInstanceConfigView};
use crate::engine::{ContainerSpec, ContainerSpecView, StartReport, StartReportView, StopOutcome};
use crate::paths::{file_name, join_path, joined_path, path_file_name};
use crate::text::{concat2, concat3, decimal, decimal_text, signed_decimal, signed_decimal_text, texts};
use vstd::prelude::*;
use vstd::string::StringExecFns;

verus! {

/// Why a server did not start.
#[derive(Debug, Clone, PartialEq, Eq)]
pub enum StartServerError {
    /// The engine did not create, start or inspect the container. The text
    /// is the engine's.
    ContainerDidntStart(String),
    /// The engine did not say when it created the container.
    ContainerHasNoCreated,
}

/// A start error, with its text as characters.
pub enum StartServerErrorView {
    ContainerDidntStart(Seq<char>),
    ContainerHasNoCreated,
}

impl View for StartServerError {
    type V = StartServerErrorView;

    open spec fn view(&self) -> StartServerErrorView {
        match self {
            StartServerError::ContainerDidntStart(why) => StartServerErrorView::ContainerDidntStart(
                why@,
            ),
            StartServerError::ContainerHasNoCreated => StartServerErrorView::ContainerHasNoCreated,
        }
    }
}

impl DeepView for StartServerError {
    type V = StartServerErrorView;

    open spec fn deep_view(&self) -> StartServerErrorView {
        self@
    }
}

impl StartServerErrorView {
    /// The error in words.
    pub open spec fn message(self) -> Seq<char> {
        match self {
            StartServerErrorView::ContainerDidntStart(why) => "The container did not start: "@
                + why,
            StartServerErrorView::ContainerHasNoCreated => "The container was not assigned a created time"@,
        }
    }
}

impl StartServerError {
    /// The error in words.
    pub fn message(&self) -> (text: String)
        ensures
            text@ == self@.message(),
    {
        match self {
            StartServerError::ContainerDidntStart(why) => concat2(
                "The container did not start: ",
                why.as_str(),
            ),
            StartServerError::ContainerHasNoCreated => String::from_str(
                "The container was not assigned a created time",
            ),
        }
    }
}

/// The container of a server that runs.
#[derive(Debug, Clone, PartialEq, Eq)]
pub struct RunningServer {
    /// The engine's id of the container.
    pub container_id: String,
    /// The game port that the container is published on.
    pub game_port: u16,
    /// When the engine created the container.
    pub start_time: Timestamp,
}

/// Whether a container runs for a server.
#[derive(Debug, Clone, PartialEq, Eq)]
pub enum ServerState {
    /// No container is known to belong to the server.
    NotRunning,
    /// A container runs for the server.
    Running(RunningServer),
}

/// One supervised server.
#[derive(Debug, PartialEq)]
pub struct Server {
    /// The id that the configuration declares the server under.
    pub id: String,
    /// The declaration, with every setting resolved.
    pub config: FilledInstanceConfig,
    /// Whether a container runs for the server.
    pub state: ServerState,
    /// Whether the latest configuration has dropped the server.
    pub is_old: bool,
}

/// The container of a running server, with its id as characters.
pub struct RunningView {
    pub container_id: Seq<char>,
    pub game_port: u16,
    pub start_time: Timestamp,
}

/// A server, with its texts as characters. The state is the container's
/// where one runs, and nothing where none does.
pub struct ServerView {
    pub id: Seq<char>,
    pub config: FilledInstanceConfigView,
    pub state: Option<RunningView>,
    pub is_old: bool,
}

impl View for RunningServer {
    type V = RunningView;

    open spec fn view(&self) -> RunningView {
        RunningView {
            container_id: self.container_id@,
            game_port: self.game_port,
            start_time: self.start_time,
        }
    }
}

impl View for ServerState {
    type V = Option<RunningView>;

    open spec fn view(&self) -> Option<RunningView> {
        match self {
            ServerState::NotRunning => None,
            ServerState::Running(running) => Some(running@),
        }
    }
}

impl View for Server {
    type V = ServerView;

    open spec fn view(&self) -> ServerView {
        ServerView { id: self.id@, config: self.config@, state: self.state@, is_old: self.is_old }
    }
}

impl DeepView for Server {
    type V = ServerView;

    open spec fn deep_view(&self) -> ServerView {
        self@
    }
}

/// The mounts of the mods: each directory is mounted, for reading only,
/// under `/mnt/mods` by its own name. A path without a name is left out.
pub open spec fn mod_binds(mods: Seq<Seq<char>>) -> Seq<Seq<char>>
    decreases mods.len(),
{
    if mods.len() == 0 {
        mods
    } else {
        match path_file_name(mods.last()) {
            Some(name) => mod_binds(mods.drop_last()).push(
                mods.last() + ":/mnt/mods/"@ + name + ":ro"@,
            ),
            None => mod_binds(mods.drop_last()),
        }
    }
}

impl ServerView {
    /// The server, marked as one that the latest configuration has dropped.
    pub open spec fn marked_old(self) -> ServerView {
        ServerView { is_old: true, ..self }
    }

    /// The server after the state that `outcome` tells of: it runs on only
    /// where it ran before and the engine refused to stop it.
    pub open spec fn stopped(self, outcome: StopOutcome) -> ServerView {
        if self.state is Some && outcome == StopOutcome::Refused {
            self
        } else {
            ServerView { state: None, ..self }
        }
    }

    /// Why the start that `report` tells of has failed, if it has.
    pub open spec fn start_error(report: StartReportView) -> Option<StartServerErrorView> {
        match report {
            StartReportView::Failed(why) => Some(StartServerErrorView::ContainerDidntStart(why)),
            StartReportView::Inspected { container_id, report } => if report.created_at() is None {
                Some(StartServerErrorView::ContainerHasNoCreated)
            } else {
                None
            },
        }
    }

    /// The server after the start on `game_port` that `report` tells of: it
    /// runs where the container came up and the engine says when it created
    /// it, and is as before where not.
    pub open spec fn started(self, game_port: u16, report: StartReportView) -> ServerView {
        match report {
            StartReportView::Inspected { container_id, report } => match report.created_at() {
                Some(start_time) => ServerView {
                    state: Some(RunningView { container_id, game_port, start_time }),
                    ..self
                },
                None => self,
            },
            StartReportView::Failed(_) => self,
        }
    }

    /// The environment of the server's container on `game_port`.
    pub open spec fn env(self, game_port: u16) -> Seq<Seq<char>> {
        ArgBuilderView::start().set_env("NS_SERVER_NAME"@, Some(self.config.name)).set_env(
            "NS_PORT"@,
            Some(decimal(game_port as nat)),
        ).set_game_config(self.config.game_config).lines()
    }

    /// The directories that the server's container mounts: the game, the
    /// mods, and what the configuration adds.
    pub open spec fn binds(self) -> Seq<Seq<char>> {
        seq![self.config.game_config.game_dir + ":/mnt/titanfall"@] + mod_binds(
            self.config.game_config.mods,
        ) + self.config.game_config.extra_binds
    }

    /// The container that the engine is asked to create for the server on
    /// `game_port`. The game port is exposed over UDP and published on the
    /// same port of the host. Where the processor time is limited, the
    /// scheduling period is 100000 microseconds.
    pub open spec fn container_spec(self, game_port: u16) -> ContainerSpecView {
        ContainerSpecView {
            name: "supervisor-"@ + self.id,
            image: self.config.game_config.docker_image,
            env: self.env(game_port),
            binds: self.binds(),
            exposed_port: decimal(game_port as nat) + "/udp"@,
            host_port: decimal(game_port as nat),
            attach_stdin: true,
            attach_stdout: true,
            attach_stderr: true,
            auto_remove: true,
            memory: self.config.game_config.perf_memory_limit_bytes,
            memory_swap: self.config.game_config.perf_virtual_memory_limit_bytes,
            cpu_period: if self.config.game_config.perf_cpus is Some {
                Some(100000i64)
            } else {
                None
            },
            cpu_quota: self.config.game_config.perf_cpus,
            cpuset_cpus: self.config.game_config.perf_cpu_set,
            log_driver: "local"@,
        }
    }

    /// The name of the log file of a container that starts at `now`.
    pub open spec fn log_file_name(self, now: CalendarTime) -> Seq<char> {
        self.id + " "@ + signed_decimal(now.year as int) + "-"@ + decimal(now.month as nat) + "-"@
            + decimal(now.day as nat) + " "@ + decimal(now.hour as nat) + "-"@ + decimal(
            now.minute as nat,
        ) + "-"@ + decimal(now.second as nat) + ".txt"@
    }

    /// The log file of a container that starts at `now`: it stands in the
    /// server's log directory.
    pub open spec fn log_file_path(self, now: CalendarTime) -> Seq<char> {
        joined_path(self.config.game_config.logs_dir, self.log_file_name(now))
    }
}

impl Server {
    /// A server that has just been declared: no container runs for it.
    pub fn new(id: String, config: FilledInstanceConfig) -> (server: Self)
        ensures
            server@ == (ServerView { id: id@, config: config@, state: None, is_old: false }),
    {
        Server { id, config, state: ServerState::NotRunning, is_old: false }
    }

    /// Whether a container runs for the server.
    pub fn is_running(&self) -> (running: bool)
        ensures
            running == self@.state is Some,
    {
        match &self.state {
            ServerState::Running(_) => true,
            ServerState::NotRunning => false,
        }
    }

    /// The container that the engine is asked to create for the server on
    /// `game_port`.
    pub fn container_spec(&self, game_port: u16) -> (spec: ContainerSpec)
        ensures
            spec@ == self@.container_spec(game_port),
    {
        let mut env_vars: Vec<String> = Vec::new();
        assert(texts(env_vars@) =~= Seq::empty());
        ArgBuilder::new().set_name(self.config.name.clone()).set_game_port(game_port).set_game_config(
            self.config.game_config.clone(),
        ).build(&mut env_vars);
        assert(texts(env_vars@) =~= self@.env(game_port));

        let mut binds: Vec<String> = Vec::new();
        binds.push(concat2(self.config.game_config.game_dir.as_str(), ":/mnt/titanfall"));
        let ghost first = texts(binds@);
        assert(first =~= seq![self@.config.game_config.game_dir + ":/mnt/titanfall"@]);
        let mods = &self.config.game_config.mods;
        let mut i: usize = 0;
        assert(texts(mods@).take(0) =~= Seq::empty());
        while i < mods.len()
            invariant
                i <= mods.len(),
                texts(binds@) == first + mod_binds(texts(mods@).take(i as int)),
            decreases mods.len() - i,
        {
            let ghost held = texts(binds@);
            assert(texts(mods@).take(i + 1).drop_last() =~= texts(mods@).take(i as int));
            assert(texts(mods@).take(i + 1).last() == mods@[i as int]@);
            match file_name(mods[i].as_str()) {
                Some(name) => {
                    let mut bind = concat3(mods[i].as_str(), ":/mnt/mods/", name.as_str());
                    bind.append(":ro");
                    binds.push(bind);
                    assert(texts(binds@) =~= held.push(
                        mods@[i as int]@ + ":/mnt/mods/"@ + name@ + ":ro"@,
                    ));
                },
                None => {},
            }
            i = i + 1;
        }
        assert(texts(mods@).take(i as int) =~= texts(mods@));
        let ghost held = texts(binds@);
        let mut extra = clone_list(&self.config.game_config.extra_binds);
        binds.append(&mut extra);
        assert(texts(binds@) =~= held + texts(self.config.game_config.extra_binds@));

        let port = decimal_text(game_port as u64);
        ContainerSpec {
            name: concat2("supervisor-", self.id.as_str()),
            image: self.config.game_config.docker_image.clone(),
            env: env_vars,
            binds,
            exposed_port: concat2(port.as_str(), "/udp"),
            host_port: port,
            attach_stdin: true,
            attach_stdout: true,
            attach_stderr: true,
            auto_remove: true,
            memory: self.config.game_config.perf_memory_limit_bytes,
            memory_swap: self.config.game_config.perf_virtual_memory_limit_bytes,
            cpu_period: match self.config.game_config.perf_cpus {
                Some(_) => Some(100000),
                None => None,
            },
            cpu_quota: self.config.game_config.perf_cpus,
            cpuset_cpus: match &self.config.game_config.perf_cpu_set {
                Some(set) => Some(set.clone()),
                None => None,
            },
            log_driver: String::from_str("local"),
        }
    }

    /// The log file of a container that starts at `now`.
    pub fn log_file_path(&self, now: &CalendarTime) -> (path: String)
        ensures
            path@ == self@.log_file_path(*now),
    {
        let mut name = concat2(self.id.as_str(), " ");
        name.append(signed_decimal_text(now.year as i64).as_str());
        name.append("-");
        name.append(decimal_text(now.month as u64).as_str());
        name.append("-");
        name.append(decimal_text(now.day as u64).as_str());
        name.append(" ");
        name.append(decimal_text(now.hour as u64).as_str());
        name.append("-");
        name.append(decimal_text(now.minute as u64).as_str());
        name.append("-");
        name.append(decimal_text(now.second as u64).as_str());
        name.append(".txt");
        join_path(self.config.game_config.logs_dir.as_str(), name.as_str())
    }

    /// Takes note of how the start of the server's container on `game_port`
    /// ended. The server runs afterwards where the container came up and the
    /// engine says when it created it; where not, the server is as before,
    /// and the error says why.
    pub fn start(&mut self, game_port: u16, report: StartReport) -> (result: Result<
        (),
        StartServerError,
    >)
        requires
            old(self)@.state is None,
        ensures
            final(self)@ == old(self)@.started(game_port, report@),
            match result {
                Ok(_) => ServerView::start_error(report@) is None,
                Err(error) => ServerView::start_error(report@) == Some(error@),
            },
    {
        match report {
            StartReport::Failed(why) => Err(StartServerError::ContainerDidntStart(why)),
            StartReport::Inspected { container_id, report } => match report.created_at() {
                Some(start_time) => {
                    self.state = ServerState::Running(
                        RunningServer { container_id, game_port, start_time },
                    );
                    Ok(())
                },
                None => Err(StartServerError::ContainerHasNoCreated),
            },
        }
    }

    /// Takes note of how the stop of the server's container ended. The
    /// server runs on only where it ran before and the engine refused to
    /// stop the container.
    pub fn stop(&mut self, outcome: StopOutcome)
        ensures
            final(self)@ == old(self)@.stopped(outcome),
    {
        match outcome {
            StopOutcome::Refused => {
                if !self.is_running() {
                    self.state = ServerState::NotRunning;
                }
            },
            StopOutcome::Stopped => {
                self.state = ServerState::NotRunning;
            },
        }
    }
}

/// The server that the configuration declares at place `i`, with every
/// setting resolved: it does not run, and it is not old.
pub open spec fn declared_server(config: Config, config_dir: Seq<char>, i: int) -> ServerView {
    ServerView {
        id: config.servers@[i].0@,
        config: config.servers@[i].1@.make_filled(
            config.servers@[i].0@,
            config.defaults@,
            config_dir,
        ),
        state: None,
        is_old: false,
    }
}

/// The servers that the configuration declares, in its order.
pub open spec fn declared_servers(config: Config, config_dir: Seq<char>) -> Seq<ServerView> {
    Seq::new(config.servers@.len(), |i: int| declared_server(config, config_dir, i))
}

/// Makes the servers that the configuration declares, in its order. The
/// configuration file stands in `config_dir`.
pub fn get_server_list_from_config(config: &Config, config_dir: &str) -> (servers: Vec<Server>)
    ensures
        servers.deep_view() == declared_servers(*config, config_dir@),
{
    let mut servers: Vec<Server> = Vec::new();
    let mut i: usize = 0;
    while i < config.servers.len()
        invariant
            i <= config.servers.len(),
            servers@.len() == i,
            forall|k: int|
                0 <= k < i ==> (#[trigger] servers@[k])@ == declared_server(
                    *config,
                    config_dir@,
                    k,
                ),
        decreases config.servers.len() - i,
    {
        let id = &config.servers[i].0;
        let instance_config = &config.servers[i].1;
        let filled = instance_config.clone().make_filled(
            id.as_str(),
            config.defaults.clone(),
            config_dir,
        );
        servers.push(Server::new(id.clone(), filled));
        i = i + 1;
    }
    assert(servers.deep_view() =~= declared_servers(*config, config_dir@));
    servers
}

} // verus!
