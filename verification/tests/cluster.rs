use chrono::DateTime;
use r2wraith::clock::Timestamp;
use r2wraith::config::{Config, GameConfig, InstanceConfig, PollInterval};
use r2wraith::engine::{ContainerSpec, InspectReport, StartReport, StopOutcome};
use r2wraith::schedule::CronSchedule;
use r2wraith::server::{
    get_server_list_from_config, RunningServer, Server, ServerState, StartServerError,
};
use r2wraith::server_cluster::{
    ids_are_unique, PollStatus, PortDecision, RestoreOutcome, SerializedServer, ServerCluster,
};
use std::collections::HashMap;
use std::ops::RangeInclusive;

// ---- a container engine that lives in memory

struct Container {
    running: bool,
    created: String,
    spec: ContainerSpec,
}

struct Engine {
    containers: HashMap<String, Container>,
    made: u32,
    refuses_stops: bool,
    refuses_starts: bool,
    forgets_created: bool,
}

impl Engine {
    fn new() -> Engine {
        Engine {
            containers: HashMap::new(),
            made: 0,
            refuses_stops: false,
            refuses_starts: false,
            forgets_created: false,
        }
    }

    fn inspect(&self, id: &str) -> Option<InspectReport> {
        self.containers.get(id).map(|container| InspectReport {
            running: Some(container.running),
            created: Some(container.created.clone()),
        })
    }

    fn stop(&mut self, id: &str) -> StopOutcome {
        if self.refuses_stops {
            StopOutcome::Refused
        } else {
            self.containers.remove(id);
            StopOutcome::Stopped
        }
    }

    fn kill(&mut self, id: &str) {
        self.containers.remove(id);
    }

    fn start(&mut self, spec: ContainerSpec, now: &Timestamp) -> StartReport {
        if self.refuses_starts {
            return StartReport::Failed("the engine is out of order".to_string());
        }
        self.made += 1;
        let id = format!("container-{}", self.made);
        let created = DateTime::from_timestamp(now.secs, now.nanos).unwrap().to_rfc3339();
        self.containers.insert(id.clone(), Container { running: true, created, spec });
        let mut report = self.inspect(&id).unwrap();
        if self.forgets_created {
            report.created = None;
        }
        StartReport::Inspected { container_id: id, report }
    }
}

// ---- the control loop, as the program runs it

struct Pass {
    status: PollStatus,
    decisions: Vec<PortDecision>,
    errors: Vec<Option<StartServerError>>,
    restarts: Vec<usize>,
}

fn container_of(server: &Server) -> Option<&str> {
    match &server.state {
        ServerState::Running(running) => Some(running.container_id.as_str()),
        ServerState::NotRunning => None,
    }
}

fn port_of(server: &Server) -> Option<u16> {
    match &server.state {
        ServerState::Running(running) => Some(running.game_port),
        ServerState::NotRunning => None,
    }
}

fn start_time_of(server: &Server) -> Option<Timestamp> {
    match &server.state {
        ServerState::Running(running) => Some(running.start_time),
        ServerState::NotRunning => None,
    }
}

fn poll(cluster: &mut ServerCluster, config: &Config, engine: &mut Engine, now: Timestamp) -> Pass {
    let reports: Vec<Option<InspectReport>> = cluster
        .servers()
        .iter()
        .map(|server| container_of(server).and_then(|id| engine.inspect(id)))
        .collect();
    let restarts = cluster.sweep(&now, &reports);
    let mut outcomes = vec![StopOutcome::Refused; cluster.servers().len()];
    for &i in &restarts {
        let id = container_of(&cluster.servers()[i]).unwrap().to_string();
        outcomes[i] = engine.stop(&id);
    }
    cluster.stop_all(&outcomes);
    let decisions = cluster.plan(config);
    let mut starts = Vec::new();
    for (i, decision) in decisions.iter().enumerate() {
        starts.push(match decision {
            PortDecision::Assigned(port) => {
                let spec = cluster.servers()[i].container_spec(*port);
                Some(engine.start(spec, &now))
            }
            _ => None,
        });
    }
    let (status, errors) = cluster.poll(config, starts);
    Pass { status, decisions, errors, restarts }
}

fn stop_everything(cluster: &mut ServerCluster, engine: &mut Engine) {
    let ids: Vec<Option<String>> =
        cluster.servers().iter().map(|s| container_of(s).map(|id| id.to_string())).collect();
    let outcomes: Vec<StopOutcome> = ids
        .iter()
        .map(|id| match id {
            Some(id) => engine.stop(id),
            None => StopOutcome::Stopped,
        })
        .collect();
    cluster.stop_all(&outcomes);
}

fn stop_old(cluster: &mut ServerCluster, engine: &mut Engine) -> Vec<Server> {
    let dropped = cluster.stop_old();
    for server in &dropped {
        if let Some(id) = container_of(server) {
            engine.stop(id);
        }
    }
    dropped
}

// ---- configurations

fn instance(name: &str, game_port: Option<u16>, schedule: Option<&str>) -> InstanceConfig {
    let mut game_config = GameConfig::default();
    game_config.restart_schedule = schedule.map(|text| CronSchedule::parse(text).unwrap());
    InstanceConfig { name: name.to_string(), game_port, game_config }
}

fn config_of(
    game_ports: RangeInclusive<u16>,
    servers: Vec<(&str, Option<u16>, Option<&str>)>,
) -> Config {
    Config {
        poll_interval: PollInterval { secs: 5, nanos: 0 },
        game_ports,
        defaults: GameConfig::default(),
        servers: servers
            .into_iter()
            .map(|(id, port, schedule)| (id.to_string(), instance(id, port, schedule)))
            .collect(),
    }
}

fn declared(config: &Config) -> Vec<Server> {
    get_server_list_from_config(config, "/srv")
}

fn at(secs: i64) -> Timestamp {
    Timestamp { secs: 1_714_564_800 + secs, nanos: 0 }
}

fn ids(cluster: &ServerCluster) -> Vec<&str> {
    cluster.servers().iter().map(|server| server.id.as_str()).collect()
}

fn ports(cluster: &ServerCluster) -> Vec<Option<u16>> {
    cluster.servers().iter().map(port_of).collect()
}

fn assert_ports_in_order(cluster: &ServerCluster, config: &Config) {
    let servers = cluster.servers();
    for (i, server) in servers.iter().enumerate() {
        if let Some(port) = port_of(server) {
            assert!(
                server.config.game_port == Some(port) || config.game_ports.contains(&port),
                "{} runs on {}",
                server.id,
                port
            );
            for other in &servers[i + 1..] {
                assert_ne!(port_of(other), Some(port), "{} and {}", server.id, other.id);
            }
        }
    }
}

fn two_servers() -> (ServerCluster, Config, Engine) {
    let config = config_of(40000..=40002, vec![("a", None, None), ("b", None, None)]);
    let mut cluster = ServerCluster::new();
    cluster.load_servers(declared(&config));
    let mut engine = Engine::new();
    poll(&mut cluster, &config, &mut engine, at(0));
    (cluster, config, engine)
}

// ---- the scenarios

#[test]
fn a_new_cluster_holds_no_servers() {
    let cluster = ServerCluster::new();
    assert!(cluster.servers().is_empty());
    assert!(ServerCluster::default().servers().is_empty());
    assert!(cluster.serialize().is_empty());
}

#[test]
fn a_fresh_start_assigns_the_first_ports_of_the_pool() {
    let config = config_of(40000..=40002, vec![("a", None, None), ("b", None, None)]);
    let mut cluster = ServerCluster::new();
    cluster.load_servers(declared(&config));
    assert_eq!(ports(&cluster), vec![None, None]);
    let mut engine = Engine::new();
    let pass = poll(&mut cluster, &config, &mut engine, at(0));
    assert_eq!(pass.status, PollStatus::DidWork);
    assert_eq!(pass.decisions, vec![PortDecision::Assigned(40000), PortDecision::Assigned(40001)]);
    assert_eq!(pass.errors, vec![None, None]);
    assert_eq!(ports(&cluster), vec![Some(40000), Some(40001)]);
    assert_eq!(engine.containers.len(), 2);
    assert_ports_in_order(&cluster, &config);
}

#[test]
fn a_poll_with_nothing_to_start_does_no_work() {
    let (mut cluster, config, mut engine) = two_servers();
    let pass = poll(&mut cluster, &config, &mut engine, at(5));
    assert_eq!(pass.status, PollStatus::NoWork);
    assert_eq!(pass.decisions, vec![PortDecision::NotQueued, PortDecision::NotQueued]);
    assert_eq!(ports(&cluster), vec![Some(40000), Some(40001)]);
    assert_eq!(engine.made, 2);
}

#[test]
fn a_poll_of_an_empty_cluster_does_no_work() {
    let config = config_of(40000..=40002, vec![]);
    let mut cluster = ServerCluster::new();
    let mut engine = Engine::new();
    let pass = poll(&mut cluster, &config, &mut engine, at(0));
    assert_eq!(pass.status, PollStatus::NoWork);
    assert!(pass.decisions.is_empty());
}

#[test]
fn the_container_is_made_from_the_servers_configuration() {
    let (cluster, _config, engine) = two_servers();
    let id = container_of(&cluster.servers()[1]).unwrap();
    let spec = &engine.containers[id].spec;
    assert_eq!(spec.name, "supervisor-b");
    assert_eq!(spec.exposed_port, "40001/udp");
    assert_eq!(spec.env[0], "NS_SERVER_NAME=b");
    assert_eq!(spec.env[1], "NS_PORT=40001");
}

#[test]
fn a_pinned_port_that_is_taken_is_not_assigned() {
    let (mut cluster, _config, mut engine) = two_servers();
    let config = config_of(
        40000..=40002,
        vec![("a", None, None), ("b", None, None), ("c", Some(40000), None)],
    );
    cluster.load_servers(declared(&config));
    let pass = poll(&mut cluster, &config, &mut engine, at(5));
    assert_eq!(
        pass.decisions,
        vec![PortDecision::NotQueued, PortDecision::NotQueued, PortDecision::PinnedTaken(40000)]
    );
    assert_eq!(pass.status, PollStatus::NoWork);
    assert_eq!(ports(&cluster), vec![Some(40000), Some(40001), None]);
    assert_eq!(
        pass.decisions[2].message(&config.game_ports),
        Some("Specified game port 40000 is not free".to_string())
    );
    assert_ports_in_order(&cluster, &config);
}

#[test]
fn of_two_servers_that_insist_on_a_port_the_first_gets_it() {
    let config = config_of(40000..=40002, vec![("a", Some(41000), None), ("b", Some(41000), None)]);
    let mut cluster = ServerCluster::new();
    cluster.load_servers(declared(&config));
    let mut engine = Engine::new();
    let pass = poll(&mut cluster, &config, &mut engine, at(0));
    assert_eq!(pass.decisions, vec![PortDecision::Assigned(41000), PortDecision::PinnedTaken(41000)]);
    assert_eq!(pass.status, PollStatus::DidWork);
    assert_eq!(ports(&cluster), vec![Some(41000), None]);
}

#[test]
fn a_pinned_port_is_kept_out_of_the_way_of_the_pool() {
    let config = config_of(
        40000..=40002,
        vec![("a", Some(40001), None), ("b", None, None), ("c", None, None), ("d", None, None)],
    );
    let mut cluster = ServerCluster::new();
    cluster.load_servers(declared(&config));
    let mut engine = Engine::new();
    let pass = poll(&mut cluster, &config, &mut engine, at(0));
    assert_eq!(
        pass.decisions,
        vec![
            PortDecision::Assigned(40001),
            PortDecision::Assigned(40000),
            PortDecision::Assigned(40002),
            PortDecision::PoolExhausted,
        ]
    );
    assert_eq!(
        pass.decisions[3].message(&config.game_ports),
        Some("No game ports between 40000 and 40002 are free".to_string())
    );
    assert_eq!(pass.decisions[0].message(&config.game_ports), None);
    assert_ports_in_order(&cluster, &config);
}

#[test]
fn a_pool_that_is_used_up_leaves_servers_waiting() {
    let config =
        config_of(40000..=40000, vec![("a", None, None), ("b", None, None), ("c", None, None)]);
    let mut cluster = ServerCluster::new();
    cluster.load_servers(declared(&config));
    let mut engine = Engine::new();
    let pass = poll(&mut cluster, &config, &mut engine, at(0));
    assert_eq!(
        pass.decisions,
        vec![
            PortDecision::Assigned(40000),
            PortDecision::PoolExhausted,
            PortDecision::PoolExhausted
        ]
    );
    assert_eq!(ports(&cluster), vec![Some(40000), None, None]);
    // once the port is free again, the next server in line gets it
    let id = container_of(&cluster.servers()[0]).unwrap().to_string();
    engine.kill(&id);
    let pass = poll(&mut cluster, &config, &mut engine, at(5));
    assert_eq!(pass.decisions[0], PortDecision::Assigned(40000));
    assert_eq!(ports(&cluster), vec![Some(40000), None, None]);
}

#[test]
fn an_empty_pool_assigns_nothing() {
    #[allow(clippy::reversed_empty_ranges)]
    let config = config_of(40002..=40000, vec![("a", None, None), ("b", Some(40001), None)]);
    let mut cluster = ServerCluster::new();
    cluster.load_servers(declared(&config));
    let mut engine = Engine::new();
    let pass = poll(&mut cluster, &config, &mut engine, at(0));
    assert_eq!(pass.decisions, vec![PortDecision::PoolExhausted, PortDecision::Assigned(40001)]);
    assert_eq!(ports(&cluster), vec![None, Some(40001)]);
}

#[test]
fn the_pool_may_reach_the_highest_port() {
    let config = config_of(65534..=65535, vec![("a", None, None), ("b", None, None), ("c", None, None)]);
    let mut cluster = ServerCluster::new();
    cluster.load_servers(declared(&config));
    let mut engine = Engine::new();
    let pass = poll(&mut cluster, &config, &mut engine, at(0));
    assert_eq!(
        pass.decisions,
        vec![
            PortDecision::Assigned(65534),
            PortDecision::Assigned(65535),
            PortDecision::PoolExhausted
        ]
    );
}

#[test]
fn a_reload_keeps_what_runs_and_adds_what_is_new() {
    let (mut cluster, _config, mut engine) = two_servers();
    let container_a = container_of(&cluster.servers()[0]).unwrap().to_string();
    let container_b = container_of(&cluster.servers()[1]).unwrap().to_string();

    let config = config_of(40000..=40002, vec![("a", None, None), ("c", None, None)]);
    cluster.load_servers(declared(&config));
    // right after the reload: a runs on, c waits, b is kept as old
    assert_eq!(ids(&cluster), vec!["a", "c", "b"]);
    assert_eq!(ports(&cluster), vec![Some(40000), None, Some(40001)]);
    assert_eq!(container_of(&cluster.servers()[0]), Some(container_a.as_str()));
    assert_eq!(container_of(&cluster.servers()[2]), Some(container_b.as_str()));
    assert_eq!(
        cluster.servers().iter().map(|s| s.is_old).collect::<Vec<_>>(),
        vec![false, false, true]
    );

    let pass = poll(&mut cluster, &config, &mut engine, at(5));
    assert_eq!(pass.status, PollStatus::DidWork);
    assert_eq!(ports(&cluster), vec![Some(40000), Some(40002), Some(40001)]);
    assert_eq!(container_of(&cluster.servers()[0]), Some(container_a.as_str()));
    assert!(cluster.servers()[2].is_old);
    assert_ports_in_order(&cluster, &config);

    let dropped = stop_old(&mut cluster, &mut engine);
    assert_eq!(dropped.len(), 1);
    assert_eq!(dropped[0].id, "b");
    assert_eq!(ids(&cluster), vec!["a", "c"]);
    assert!(cluster.servers().iter().all(|server| !server.is_old));
    assert!(!engine.containers.contains_key(&container_b));
    assert_eq!(engine.containers.len(), 2);
}

#[test]
fn a_reload_drops_a_server_that_does_not_run() {
    let config = config_of(40000..=40002, vec![("a", None, None), ("b", None, None)]);
    let mut cluster = ServerCluster::new();
    cluster.load_servers(declared(&config));
    let next = config_of(40000..=40002, vec![("b", None, None)]);
    cluster.load_servers(declared(&next));
    assert_eq!(ids(&cluster), vec!["b"]);
    assert!(!cluster.servers()[0].is_old);
}

#[test]
fn a_reload_takes_the_new_order_and_the_new_settings() {
    let (mut cluster, _config, _engine) = two_servers();
    let mut next = config_of(40000..=40002, vec![("b", Some(40001), None), ("a", None, None)]);
    next.servers[0].1.name = "Renamed".to_string();
    cluster.load_servers(declared(&next));
    assert_eq!(ids(&cluster), vec!["b", "a"]);
    assert_eq!(ports(&cluster), vec![Some(40001), Some(40000)]);
    assert_eq!(cluster.servers()[0].config.name, "Renamed");
    assert_eq!(cluster.servers()[0].config.game_port, Some(40001));
}

#[test]
fn a_server_that_comes_back_is_not_old_any_more() {
    let (mut cluster, config, _engine) = two_servers();
    let without_b = config_of(40000..=40002, vec![("a", None, None)]);
    cluster.load_servers(declared(&without_b));
    assert!(cluster.servers()[1].is_old);
    let container_b = container_of(&cluster.servers()[1]).unwrap().to_string();
    cluster.load_servers(declared(&config));
    assert_eq!(ids(&cluster), vec!["a", "b"]);
    assert!(!cluster.servers()[1].is_old);
    assert_eq!(container_of(&cluster.servers()[1]), Some(container_b.as_str()));
}

#[test]
fn stop_old_without_old_servers_changes_nothing() {
    let (mut cluster, _config, mut engine) = two_servers();
    let dropped = stop_old(&mut cluster, &mut engine);
    assert!(dropped.is_empty());
    assert_eq!(ids(&cluster), vec!["a", "b"]);
    assert_eq!(engine.containers.len(), 2);
}

#[test]
fn a_crashed_container_is_replaced_in_one_poll() {
    let (mut cluster, config, mut engine) = two_servers();
    let old = container_of(&cluster.servers()[0]).unwrap().to_string();
    engine.kill(&old);
    let pass = poll(&mut cluster, &config, &mut engine, at(7));
    assert_eq!(pass.status, PollStatus::DidWork);
    assert_eq!(pass.decisions, vec![PortDecision::Assigned(40000), PortDecision::NotQueued]);
    let new = container_of(&cluster.servers()[0]).unwrap();
    assert_ne!(new, old);
    assert_eq!(start_time_of(&cluster.servers()[0]), Some(at(7)));
    assert_eq!(start_time_of(&cluster.servers()[1]), Some(at(0)));
    assert_ports_in_order(&cluster, &config);
}

#[test]
fn a_container_that_has_exited_counts_as_gone() {
    let (mut cluster, config, mut engine) = two_servers();
    let id = container_of(&cluster.servers()[1]).unwrap().to_string();
    engine.containers.get_mut(&id).unwrap().running = false;
    let pass = poll(&mut cluster, &config, &mut engine, at(7));
    assert_eq!(pass.decisions, vec![PortDecision::NotQueued, PortDecision::Assigned(40001)]);
    assert_ne!(container_of(&cluster.servers()[1]), Some(id.as_str()));
}

#[test]
fn the_liveness_check_alone_notes_what_is_gone() {
    let (mut cluster, _config, _engine) = two_servers();
    let reports = vec![
        Some(InspectReport { running: Some(true), created: None }),
        Some(InspectReport { running: None, created: None }),
    ];
    let restarts = cluster.sweep(&at(1), &reports);
    assert!(restarts.is_empty());
    assert_eq!(ports(&cluster), vec![Some(40000), None]);
}

#[test]
fn a_report_that_is_missing_counts_as_a_container_that_is_gone() {
    let (mut cluster, _config, _engine) = two_servers();
    let reports = vec![Some(InspectReport { running: Some(true), created: None })];
    cluster.sweep(&at(1), &reports);
    assert_eq!(ports(&cluster), vec![Some(40000), None]);
}

#[test]
fn a_scheduled_restart_happens_once_its_time_has_passed() {
    let config = config_of(40000..=40002, vec![("a", None, None), ("b", None, Some("*/5 * * * * *"))]);
    let mut cluster = ServerCluster::new();
    cluster.load_servers(declared(&config));
    let mut engine = Engine::new();
    poll(&mut cluster, &config, &mut engine, at(0));
    let first = container_of(&cluster.servers()[1]).unwrap().to_string();

    // before the time, and at the time itself, nothing happens
    for now in [at(1), at(4), at(5)] {
        let pass = poll(&mut cluster, &config, &mut engine, now);
        assert_eq!(pass.status, PollStatus::NoWork);
        assert!(pass.restarts.is_empty());
        assert_eq!(container_of(&cluster.servers()[1]), Some(first.as_str()));
    }

    // after it, the server is stopped and started again in the same poll
    let pass = poll(&mut cluster, &config, &mut engine, at(6));
    assert_eq!(pass.restarts, vec![1]);
    assert_eq!(pass.status, PollStatus::DidWork);
    assert_eq!(pass.decisions, vec![PortDecision::NotQueued, PortDecision::Assigned(40001)]);
    assert_ne!(container_of(&cluster.servers()[1]), Some(first.as_str()));
    assert!(!engine.containers.contains_key(&first));
    assert_eq!(start_time_of(&cluster.servers()[1]), Some(at(6)));
    assert_eq!(start_time_of(&cluster.servers()[0]), Some(at(0)));
    assert_ports_in_order(&cluster, &config);
}

#[test]
fn a_scheduled_restart_counts_nanoseconds() {
    let config = config_of(40000..=40002, vec![("b", None, Some("*/5 * * * * *"))]);
    let mut cluster = ServerCluster::new();
    cluster.load_servers(declared(&config));
    let mut engine = Engine::new();
    poll(&mut cluster, &config, &mut engine, at(0));
    let just_after = Timestamp { secs: at(5).secs, nanos: 1 };
    let pass = poll(&mut cluster, &config, &mut engine, just_after);
    assert_eq!(pass.restarts, vec![0]);
    assert_eq!(start_time_of(&cluster.servers()[0]), Some(just_after));
}

#[test]
fn a_scheduled_restart_that_the_engine_refuses_is_tried_again() {
    let config = config_of(40000..=40002, vec![("b", None, Some("*/5 * * * * *"))]);
    let mut cluster = ServerCluster::new();
    cluster.load_servers(declared(&config));
    let mut engine = Engine::new();
    poll(&mut cluster, &config, &mut engine, at(0));
    let first = container_of(&cluster.servers()[0]).unwrap().to_string();

    engine.refuses_stops = true;
    let pass = poll(&mut cluster, &config, &mut engine, at(6));
    assert_eq!(pass.restarts, vec![0]);
    assert_eq!(pass.status, PollStatus::NoWork);
    assert_eq!(container_of(&cluster.servers()[0]), Some(first.as_str()));

    engine.refuses_stops = false;
    let pass = poll(&mut cluster, &config, &mut engine, at(11));
    assert_eq!(pass.restarts, vec![0]);
    assert_eq!(pass.status, PollStatus::DidWork);
    assert_ne!(container_of(&cluster.servers()[0]), Some(first.as_str()));
}

#[test]
fn a_start_that_fails_leaves_the_server_for_the_next_poll() {
    let config = config_of(40000..=40002, vec![("a", None, None)]);
    let mut cluster = ServerCluster::new();
    cluster.load_servers(declared(&config));
    let mut engine = Engine::new();
    engine.refuses_starts = true;
    let pass = poll(&mut cluster, &config, &mut engine, at(0));
    assert_eq!(pass.status, PollStatus::DidWork);
    assert_eq!(
        pass.errors,
        vec![Some(StartServerError::ContainerDidntStart("the engine is out of order".to_string()))]
    );
    assert_eq!(ports(&cluster), vec![None]);

    engine.refuses_starts = false;
    engine.forgets_created = true;
    let pass = poll(&mut cluster, &config, &mut engine, at(5));
    assert_eq!(pass.errors, vec![Some(StartServerError::ContainerHasNoCreated)]);
    assert_eq!(ports(&cluster), vec![None]);

    engine.forgets_created = false;
    let pass = poll(&mut cluster, &config, &mut engine, at(10));
    assert_eq!(pass.errors, vec![None]);
    assert_eq!(ports(&cluster), vec![Some(40000)]);
}

#[test]
fn a_start_report_that_is_missing_counts_as_a_failure() {
    let config = config_of(40000..=40002, vec![("a", None, None), ("b", None, None)]);
    let mut cluster = ServerCluster::new();
    cluster.load_servers(declared(&config));
    let (status, errors) = cluster.poll(&config, vec![None]);
    assert_eq!(status, PollStatus::DidWork);
    assert_eq!(
        errors,
        vec![
            Some(StartServerError::ContainerDidntStart(String::new())),
            Some(StartServerError::ContainerDidntStart(String::new()))
        ]
    );
    assert_eq!(ports(&cluster), vec![None, None]);
}

#[test]
fn start_reports_for_servers_that_run_are_passed_over() {
    let (mut cluster, config, _engine) = two_servers();
    let report = StartReport::Inspected {
        container_id: "stray".to_string(),
        report: InspectReport {
            running: Some(true),
            created: Some("2024-05-01T12:00:00Z".to_string()),
        },
    };
    let (status, errors) = cluster.poll(&config, vec![Some(report.clone()), Some(report)]);
    assert_eq!(status, PollStatus::NoWork);
    assert_eq!(errors, vec![None, None]);
    assert_ne!(container_of(&cluster.servers()[0]), Some("stray"));
}

#[test]
fn stop_all_stops_every_server_and_keeps_them() {
    let (mut cluster, config, mut engine) = two_servers();
    stop_everything(&mut cluster, &mut engine);
    assert_eq!(ids(&cluster), vec!["a", "b"]);
    assert_eq!(ports(&cluster), vec![None, None]);
    assert!(engine.containers.is_empty());
    // the next poll starts them again, with the pool to itself
    let pass = poll(&mut cluster, &config, &mut engine, at(5));
    assert_eq!(pass.status, PollStatus::DidWork);
    assert_eq!(ports(&cluster), vec![Some(40000), Some(40001)]);
}

#[test]
fn stop_all_leaves_a_server_whose_stop_was_refused() {
    let (mut cluster, _config, _engine) = two_servers();
    cluster.stop_all(&vec![StopOutcome::Refused, StopOutcome::Stopped]);
    assert_eq!(ports(&cluster), vec![Some(40000), None]);
}

#[test]
fn a_stop_outcome_that_is_missing_counts_as_a_refusal() {
    let (mut cluster, _config, _engine) = two_servers();
    cluster.stop_all(&vec![StopOutcome::Stopped]);
    assert_eq!(ports(&cluster), vec![None, Some(40001)]);
}

#[test]
fn a_server_is_found_by_its_id() {
    let (mut cluster, _config, _engine) = two_servers();
    assert_eq!(cluster.find("a"), Some(0));
    assert_eq!(cluster.find("b"), Some(1));
    assert_eq!(cluster.find("c"), None);
    assert_eq!(cluster.find(""), None);
    assert!(cluster.get_mut("c").is_none());
    let server = cluster.get_mut("b").unwrap();
    assert_eq!(server.id, "b");
    server.stop(StopOutcome::Stopped);
    assert_eq!(ports(&cluster), vec![Some(40000), None]);
}

#[test]
fn a_restart_by_name_frees_the_port_for_the_next_poll() {
    let (mut cluster, config, mut engine) = two_servers();
    let old = container_of(&cluster.servers()[0]).unwrap().to_string();
    let outcome = engine.stop(&old);
    cluster.get_mut("a").unwrap().stop(outcome);
    let pass = poll(&mut cluster, &config, &mut engine, at(5));
    assert_eq!(pass.decisions, vec![PortDecision::Assigned(40000), PortDecision::NotQueued]);
    assert_ne!(container_of(&cluster.servers()[0]), Some(old.as_str()));
}

#[test]
fn the_restore_file_holds_the_servers_that_run() {
    let (mut cluster, _config, _engine) = two_servers();
    let container_a = container_of(&cluster.servers()[0]).unwrap().to_string();
    let container_b = container_of(&cluster.servers()[1]).unwrap().to_string();
    assert_eq!(
        cluster.serialize(),
        vec![
            SerializedServer { name: "a".to_string(), container_id: container_a, game_port: 40000 },
            SerializedServer {
                name: "b".to_string(),
                container_id: container_b.clone(),
                game_port: 40001
            },
        ]
    );
    cluster.get_mut("a").unwrap().stop(StopOutcome::Stopped);
    assert_eq!(
        cluster.serialize(),
        vec![SerializedServer { name: "b".to_string(), container_id: container_b, game_port: 40001 }]
    );
}

#[test]
fn a_handoff_gives_the_containers_to_the_next_supervisor() {
    let (old_cluster, config, mut engine) = two_servers();
    let file = old_cluster.serialize();
    drop(old_cluster);

    let mut cluster = ServerCluster::new();
    cluster.load_servers(declared(&config));
    let reports: Vec<_> = file.iter().map(|entry| engine.inspect(&entry.container_id)).collect();
    let outcomes = cluster.deserialize(file.clone(), &reports);
    assert_eq!(outcomes, vec![RestoreOutcome::Restored, RestoreOutcome::Restored]);
    assert_eq!(cluster.serialize(), file);
    assert_eq!(start_time_of(&cluster.servers()[0]), Some(at(0)));

    // the first poll finds everything in place
    let pass = poll(&mut cluster, &config, &mut engine, at(5));
    assert_eq!(pass.status, PollStatus::NoWork);
    assert_eq!(engine.made, 2);
    assert_eq!(cluster.serialize(), file);
}

#[test]
fn entries_of_a_restore_file_that_cannot_be_used_are_passed_over() {
    let config = config_of(40000..=40002, vec![("a", None, None), ("b", None, None), ("c", None, None)]);
    let mut cluster = ServerCluster::new();
    cluster.load_servers(declared(&config));
    let entry = |name: &str, container: &str, port: u16| SerializedServer {
        name: name.to_string(),
        container_id: container.to_string(),
        game_port: port,
    };
    let report = |running: Option<bool>, created: Option<&str>| {
        Some(InspectReport { running, created: created.map(|c| c.to_string()) })
    };
    let file = vec![
        entry("gone", "c0", 40000),
        entry("a", "c1", 40000),
        entry("b", "c2", 40001),
        entry("c", "c3", 40002),
        entry("c", "c4", 40002),
        entry("a", "c5", 40005),
    ];
    let reports = vec![
        report(Some(true), Some("2024-05-01T12:00:00Z")),
        None,
        report(Some(false), Some("2024-05-01T12:00:00Z")),
        report(Some(true), None),
        report(Some(true), Some("2024-05-01T12:00:00Z")),
    ];
    let outcomes = cluster.deserialize(file, &reports);
    assert_eq!(
        outcomes,
        vec![
            RestoreOutcome::UnknownServer,
            RestoreOutcome::NotRunning,
            RestoreOutcome::NotRunning,
            RestoreOutcome::NoCreatedTime,
            RestoreOutcome::Restored,
            RestoreOutcome::NotRunning,
        ]
    );
    assert_eq!(ports(&cluster), vec![None, None, Some(40002)]);
    assert_eq!(container_of(&cluster.servers()[2]), Some("c4"));
    assert_eq!(
        cluster.servers()[2].state,
        ServerState::Running(RunningServer {
            container_id: "c4".to_string(),
            game_port: 40002,
            start_time: Timestamp { secs: 1714564800, nanos: 0 },
        })
    );
}

#[test]
fn the_ports_stay_in_order_through_a_long_run() {
    let config = config_of(
        40000..=40003,
        vec![("a", None, None), ("b", Some(40001), None), ("c", None, Some("*/5 * * * * *"))],
    );
    let mut cluster = ServerCluster::new();
    cluster.load_servers(declared(&config));
    let mut engine = Engine::new();
    for step in 0..12 {
        let now = at(step * 3);
        poll(&mut cluster, &config, &mut engine, now);
        assert_ports_in_order(&cluster, &config);
        if step == 3 {
            let next = config_of(
                40000..=40003,
                vec![("c", None, Some("*/5 * * * * *")), ("d", None, None), ("e", None, None)],
            );
            cluster.load_servers(declared(&next));
            assert_ports_in_order(&cluster, &config);
        }
        if step == 5 {
            stop_old(&mut cluster, &mut engine);
            assert_ports_in_order(&cluster, &config);
        }
        if step == 7 {
            stop_everything(&mut cluster, &mut engine);
            assert_ports_in_order(&cluster, &config);
        }
        if step == 9 {
            let id = container_of(&cluster.servers()[1]).unwrap().to_string();
            engine.kill(&id);
        }
    }
    assert_eq!(ids(&cluster), vec!["c", "d", "e"]);
    assert!(cluster.servers().iter().all(|server| server.is_running()));
}

#[test]
fn servers_that_share_an_id_are_found_out() {
    let config = config_of(40000..=40002, vec![("a", None, None), ("b", None, None)]);
    assert!(ids_are_unique(&declared(&config)));
    assert!(ids_are_unique(&Vec::new()));
    let twice = config_of(
        40000..=40002,
        vec![("a", None, None), ("b", None, None), ("a", Some(40001), None)],
    );
    assert!(!ids_are_unique(&declared(&twice)));
    let (cluster, _config, _engine) = two_servers();
    assert!(ids_are_unique(cluster.servers()));
}
