//! The server cluster: the servers that the supervisor looks after, and the
//! decisions of its control loop.
//!
//! The cluster decides and keeps the books; it does not talk to the
//! container engine. The caller does that between the steps:
//!
//! - a poll begins with `sweep`, which is told what the engine says of each
//!   running container, notes the containers that are gone and names the
//!   servers whose scheduled restart has passed;
//! - the caller stops those and reports with `stop_all`;
//! - `plan` allots a game port to every server that does not run;
//! - the caller starts those and reports with `poll`.
//!
//! What each step does is written down as a function on the cluster's view,
//! a sequence of servers. What holds of the steps together is proved from
//! those functions in [`crate::cluster_proofs`].

use crate::clock::Timestamp;
use crate::cluster_proofs::ports_valid;
use crate::config::{pool_end, pool_is_empty, pool_start, Config};
use crate::engine::{
    has_stopped, InspectReport, InspectReportView, StartReport, StartReportView, StopOutcome,
};
use crate::schedule::CronSchedule;
use crate::server::{
    RunningServer, RunningView, Server, ServerState, ServerView, StartServerError,
    StartServerErrorView,
};
use crate::text::{concat3, decimal, decimal_text};
use std::collections::HashSet;
use std::ops::RangeInclusive;
use vstd::prelude::*;
use vstd::std_specs::range::RangeInclusiveView;
use vstd::string::StringExecFns;

verus! {

broadcast use vstd::std_specs::hash::group_hash_axioms;

/// Whether a poll had anything to start.
#[derive(Debug, Clone, Copy, PartialEq, Eq, Structural)]
pub enum PollStatus {
    DidWork,
    NoWork,
}

/// What a restore file holds of one running server.
#[derive(Debug, Clone, PartialEq, Eq)]
pub struct SerializedServer {
    pub name: String,
    pub container_id: String,
    pub game_port: u16,
}

/// An entry of a restore file, with its texts as characters.
pub struct SerializedView {
    pub name: Seq<char>,
    pub container_id: Seq<char>,
    pub game_port: u16,
}

impl View for SerializedServer {
    type V = SerializedView;

    open spec fn view(&self) -> SerializedView {
        SerializedView {
            name: self.name@,
            container_id: self.container_id@,
            game_port: self.game_port,
        }
    }
}

impl DeepView for SerializedServer {
    type V = SerializedView;

    open spec fn deep_view(&self) -> SerializedView {
        self@
    }
}

/// What a poll decides for one server.
#[derive(Debug, Clone, Copy, PartialEq, Eq, Structural)]
pub enum PortDecision {
    /// The server runs: there is nothing to start.
    NotQueued,
    /// The server is to be started on this game port.
    Assigned(u16),
    /// The server insists on this game port, and the port is taken.
    PinnedTaken(u16),
    /// No port of the pool is free.
    PoolExhausted,
}

/// What became of one entry of a restore file.
#[derive(Debug, Clone, Copy, PartialEq, Eq, Structural)]
pub enum RestoreOutcome {
    /// The server runs again under the entry's container.
    Restored,
    /// The cluster holds no server of that name.
    UnknownServer,
    /// The engine does not know the container, or the container does not run.
    NotRunning,
    /// The engine does not say when it created the container.
    NoCreatedTime,
}

/// The first place in `ids` that holds `id`.
pub open spec fn is_first(ids: Seq<Seq<char>>, id: Seq<char>, i: int) -> bool {
    &&& 0 <= i < ids.len()
    &&& ids[i] == id
    &&& forall|j: int| 0 <= j < i ==> ids[j] != id
}

/// The first place in `ids` that holds `id`, if any does.
pub open spec fn position(ids: Seq<Seq<char>>, id: Seq<char>) -> Option<int> {
    if exists|i: int| is_first(ids, id, i) {
        Some(choose|i: int| is_first(ids, id, i))
    } else {
        None
    }
}

/// The ids of the servers, in their order.
pub open spec fn ids_of(servers: Seq<ServerView>) -> Seq<Seq<char>> {
    Seq::new(servers.len(), |i: int| servers[i].id)
}

/// The place of the first server with the given id, if there is one.
pub open spec fn index_of(servers: Seq<ServerView>, id: Seq<char>) -> Option<int> {
    position(ids_of(servers), id)
}

/// Whether no two servers share an id.
pub open spec fn ids_unique(servers: Seq<ServerView>) -> bool {
    forall|i: int, j: int|
        0 <= i < j < servers.len() ==> (#[trigger] servers[i]).id != (#[trigger] servers[j]).id
}

/// Whether the server at `i` runs on `port`.
pub open spec fn runs_on(servers: Seq<ServerView>, i: int, port: u16) -> bool {
    &&& 0 <= i < servers.len()
    &&& servers[i].state matches Some(running)
    &&& running.game_port == port
}

/// The game ports that running servers hold.
pub open spec fn ports_in_use(servers: Seq<ServerView>) -> Set<u16> {
    Set::new(|port: u16| exists|i: int| runs_on(servers, i, port))
}

/// Whether the pool holds the port.
pub open spec fn pool_has(pool: RangeInclusiveView<u16>, port: u16) -> bool {
    !pool.exhausted && pool.start <= port <= pool.end
}

/// The first port from `from` up to `end` that is not in use.
pub open spec fn first_free_from(end: u16, used: Set<u16>, from: int) -> Option<u16>
    decreases end - from + 1,
{
    if from < 0 || from > end {
        None
    } else if !used.contains(from as u16) {
        Some(from as u16)
    } else {
        first_free_from(end, used, from + 1)
    }
}

/// The first port of the pool that is not in use.
pub open spec fn free_port(pool: RangeInclusiveView<u16>, used: Set<u16>) -> Option<u16> {
    if pool.exhausted {
        None
    } else {
        first_free_from(pool.end, used, pool.start as int)
    }
}

/// What is decided for a server when the ports in `used` are taken. A server
/// that runs is left alone. One that insists on a port gets that port, or
/// none if it is taken. Any other gets the first free port of the pool.
pub open spec fn decide(server: ServerView, pool: RangeInclusiveView<u16>, used: Set<u16>) -> PortDecision {
    if server.state is Some {
        PortDecision::NotQueued
    } else {
        match server.config.game_port {
            Some(port) => if used.contains(port) {
                PortDecision::PinnedTaken(port)
            } else {
                PortDecision::Assigned(port)
            },
            None => match free_port(pool, used) {
                Some(port) => PortDecision::Assigned(port),
                None => PortDecision::PoolExhausted,
            },
        }
    }
}

/// The ports that are taken when the first `k` servers have had their turn:
/// those that running servers hold, and those assigned so far.
pub open spec fn used_after(servers: Seq<ServerView>, pool: RangeInclusiveView<u16>, k: int) -> Set<
    u16,
>
    decreases k,
{
    if k <= 0 {
        ports_in_use(servers)
    } else {
        let used = used_after(servers, pool, k - 1);
        match decide(servers[k - 1], pool, used) {
            PortDecision::Assigned(port) => used.insert(port),
            _ => used,
        }
    }
}

/// What is decided for each server: the servers take their turns in the
/// cluster's order, and a port that is assigned is taken for those that
/// follow.
pub open spec fn plan(servers: Seq<ServerView>, pool: RangeInclusiveView<u16>) -> Seq<PortDecision> {
    Seq::new(servers.len(), |i: int| decide(servers[i], pool, used_after(servers, pool, i)))
}

/// What the engine said of the container of the server at `i`. What is
/// missing counts as a container that the engine could not find.
pub open spec fn report_at(reports: Seq<Option<InspectReportView>>, i: int) -> Option<
    InspectReportView,
> {
    if 0 <= i < reports.len() {
        reports[i]
    } else {
        None
    }
}

/// How the stop of the container of the server at `i` ended. What is
/// missing counts as a refusal.
pub open spec fn outcome_at(outcomes: Seq<StopOutcome>, i: int) -> StopOutcome {
    if 0 <= i < outcomes.len() {
        outcomes[i]
    } else {
        StopOutcome::Refused
    }
}

/// How the start of the container of the server at `i` ended. What is
/// missing counts as a failure of which the engine said nothing.
pub open spec fn start_at(starts: Seq<Option<StartReportView>>, i: int) -> StartReportView {
    if 0 <= i < starts.len() && starts[i] is Some {
        starts[i]->0
    } else {
        StartReportView::Failed(Seq::empty())
    }
}

/// A server after the liveness check: one whose container has stopped does
/// not run any more.
pub open spec fn swept_one(server: ServerView, report: Option<InspectReportView>) -> ServerView {
    if server.state is Some && has_stopped(report) {
        ServerView { state: None, ..server }
    } else {
        server
    }
}

/// Whether a scheduled restart of the server has passed at `poll_time`: the
/// server runs, it has a schedule, and the first time after the container's
/// creation at which the schedule fires lies before `poll_time`.
pub open spec fn is_due(server: ServerView, report: Option<InspectReportView>, poll_time: Timestamp) -> bool {
    &&& server.state matches Some(running)
    &&& !has_stopped(report)
    &&& server.config.game_config.restart_schedule matches Some(expression)
    &&& CronSchedule::next_after_spec(expression, running.start_time) matches Some(next)
    &&& next.before(poll_time)
}

/// The cluster after the liveness check.
pub open spec fn swept(servers: Seq<ServerView>, reports: Seq<Option<InspectReportView>>) -> Seq<
    ServerView,
> {
    Seq::new(servers.len(), |i: int| swept_one(servers[i], report_at(reports, i)))
}

/// The places, among the first `k`, of the servers whose scheduled restart
/// has passed.
pub open spec fn due(
    servers: Seq<ServerView>,
    reports: Seq<Option<InspectReportView>>,
    poll_time: Timestamp,
    k: int,
) -> Seq<int>
    decreases k,
{
    if k <= 0 {
        Seq::empty()
    } else if k <= servers.len() && is_due(servers[k - 1], report_at(reports, k - 1), poll_time) {
        due(servers, reports, poll_time, k - 1).push(k - 1)
    } else {
        due(servers, reports, poll_time, k - 1)
    }
}

/// The cluster after the stops that `outcomes` tells of.
pub open spec fn stopped_all(servers: Seq<ServerView>, outcomes: Seq<StopOutcome>) -> Seq<ServerView> {
    Seq::new(servers.len(), |i: int| servers[i].stopped(outcome_at(outcomes, i)))
}

/// The servers that the latest configuration holds.
pub open spec fn current(servers: Seq<ServerView>) -> Seq<ServerView>
    decreases servers.len(),
{
    if servers.len() == 0 {
        servers
    } else if servers.last().is_old {
        current(servers.drop_last())
    } else {
        current(servers.drop_last()).push(servers.last())
    }
}

/// The servers that the latest configuration has dropped.
pub open spec fn outdated(servers: Seq<ServerView>) -> Seq<ServerView>
    decreases servers.len(),
{
    if servers.len() == 0 {
        servers
    } else if servers.last().is_old {
        outdated(servers.drop_last()).push(servers.last())
    } else {
        outdated(servers.drop_last())
    }
}

/// What a restore file holds of the cluster: an entry for each server that
/// runs, in the cluster's order.
pub open spec fn serialized(servers: Seq<ServerView>) -> Seq<SerializedView>
    decreases servers.len(),
{
    if servers.len() == 0 {
        Seq::empty()
    } else {
        match servers.last().state {
            Some(running) => serialized(servers.drop_last()).push(
                SerializedView {
                    name: servers.last().id,
                    container_id: running.container_id,
                    game_port: running.game_port,
                },
            ),
            None => serialized(servers.drop_last()),
        }
    }
}

/// What becomes of an entry of a restore file.
pub open spec fn restore_outcome(
    servers: Seq<ServerView>,
    entry: SerializedView,
    report: Option<InspectReportView>,
) -> RestoreOutcome {
    if index_of(servers, entry.name) is None {
        RestoreOutcome::UnknownServer
    } else if has_stopped(report) {
        RestoreOutcome::NotRunning
    } else if report->0.created_at() is None {
        RestoreOutcome::NoCreatedTime
    } else {
        RestoreOutcome::Restored
    }
}

/// The cluster after one entry of a restore file: the server of that name
/// runs under the entry's container, if the engine says that the container
/// runs and when it was created.
pub open spec fn restored_one(
    servers: Seq<ServerView>,
    entry: SerializedView,
    report: Option<InspectReportView>,
) -> Seq<ServerView> {
    if restore_outcome(servers, entry, report) == RestoreOutcome::Restored {
        let i = index_of(servers, entry.name)->0;
        servers.update(
            i,
            ServerView {
                state: Some(
                    RunningView {
                        container_id: entry.container_id,
                        game_port: entry.game_port,
                        start_time: report->0.created_at()->0,
                    },
                ),
                ..servers[i]
            },
        )
    } else {
        servers
    }
}

/// The cluster after the first `k` entries of a restore file.
pub open spec fn restored(
    servers: Seq<ServerView>,
    entries: Seq<SerializedView>,
    reports: Seq<Option<InspectReportView>>,
    k: int,
) -> Seq<ServerView>
    decreases k,
{
    if k <= 0 || k > entries.len() {
        servers
    } else {
        restored_one(
            restored(servers, entries, reports, k - 1),
            entries[k - 1],
            report_at(reports, k - 1),
        )
    }
}

/// What becomes of each of the first `k` entries of a restore file.
pub open spec fn restore_outcomes(
    servers: Seq<ServerView>,
    entries: Seq<SerializedView>,
    reports: Seq<Option<InspectReportView>>,
    k: int,
) -> Seq<RestoreOutcome>
    decreases k,
{
    if k <= 0 || k > entries.len() {
        Seq::empty()
    } else {
        restore_outcomes(servers, entries, reports, k - 1).push(
            restore_outcome(
                restored(servers, entries, reports, k - 1),
                entries[k - 1],
                report_at(reports, k - 1),
            ),
        )
    }
}

/// A newly declared server, with the state of the server that the cluster
/// holds under its id, if it holds one.
pub open spec fn adopted(declared: ServerView, servers: Seq<ServerView>) -> ServerView {
    match index_of(servers, declared.id) {
        Some(i) => ServerView { state: servers[i].state, ..declared },
        None => declared,
    }
}

/// The newly declared servers, each with the state that the cluster holds
/// for it.
pub open spec fn adopted_all(declared: Seq<ServerView>, servers: Seq<ServerView>) -> Seq<ServerView> {
    Seq::new(declared.len(), |i: int| adopted(declared[i], servers))
}

/// Whether the server is left over: it runs, and the new declarations do
/// not hold its id.
pub open spec fn is_leftover(server: ServerView, declared: Seq<ServerView>) -> bool {
    server.state is Some && index_of(declared, server.id) is None
}

/// The servers that are left over, in their order, each marked as old.
pub open spec fn leftovers(servers: Seq<ServerView>, declared: Seq<ServerView>) -> Seq<ServerView>
    decreases servers.len(),
{
    if servers.len() == 0 {
        servers
    } else if is_leftover(servers.last(), declared) {
        leftovers(servers.drop_last(), declared).push(servers.last().marked_old())
    } else {
        leftovers(servers.drop_last(), declared)
    }
}

/// The cluster after a reload: the newly declared servers in their order,
/// each with the state that the cluster held for it, and behind them the
/// servers that are left over.
pub open spec fn loaded(servers: Seq<ServerView>, declared: Seq<ServerView>) -> Seq<ServerView> {
    adopted_all(declared, servers) + leftovers(servers, declared)
}

/// The cluster after the starts that `starts` tells of: a server that was
/// assigned a port is started on it, with the outcome that the report at
/// its place gives.
pub open spec fn polled(
    servers: Seq<ServerView>,
    pool: RangeInclusiveView<u16>,
    starts: Seq<Option<StartReportView>>,
) -> Seq<ServerView> {
    Seq::new(
        servers.len(),
        |i: int|
            match plan(servers, pool)[i] {
                PortDecision::Assigned(port) => servers[i].started(port, start_at(starts, i)),
                _ => servers[i],
            },
    )
}

/// Why each start failed, where one did.
pub open spec fn poll_errors(
    servers: Seq<ServerView>,
    pool: RangeInclusiveView<u16>,
    starts: Seq<Option<StartReportView>>,
) -> Seq<Option<StartServerErrorView>> {
    Seq::new(
        servers.len(),
        |i: int|
            match plan(servers, pool)[i] {
                PortDecision::Assigned(port) => ServerView::start_error(start_at(starts, i)),
                _ => None,
            },
    )
}

/// Whether the plan holds a server to start.
pub open spec fn has_work(decisions: Seq<PortDecision>) -> bool {
    exists|i: int| 0 <= i < decisions.len() && decisions[i] is Assigned
}

/// A place that holds the id is the first that does, or a later one.
pub proof fn lemma_position(ids: Seq<Seq<char>>, id: Seq<char>, i: int)
    requires
        is_first(ids, id, i),
    ensures
        position(ids, id) == Some(i),
{
    let k = choose|k: int| is_first(ids, id, k);
    if k < i {
        assert(ids[k] != id);
    }
    if i < k {
        assert(ids[i] != id);
    }
}

/// What `position` finds is the first place that holds the id, and it
/// finds nothing only where no place holds it.
pub proof fn lemma_position_finds(ids: Seq<Seq<char>>, id: Seq<char>)
    ensures
        position(ids, id) matches Some(i) ==> is_first(ids, id, i),
        position(ids, id) is None ==> forall|j: int| 0 <= j < ids.len() ==> ids[j] != id,
{
    if position(ids, id) is None {
        assert forall|j: int| 0 <= j < ids.len() implies ids[j] != id by {
            if ids[j] == id {
                lemma_first_exists(ids, id, j);
            }
        }
    }
}

/// Where some place holds the id, some place is the first that does.
pub proof fn lemma_first_exists(ids: Seq<Seq<char>>, id: Seq<char>, j: int)
    requires
        0 <= j < ids.len(),
        ids[j] == id,
    ensures
        exists|i: int| is_first(ids, id, i),
    decreases j,
{
    if forall|k: int| 0 <= k < j ==> ids[k] != id {
        assert(is_first(ids, id, j));
    } else {
        let k = choose|k: int| 0 <= k < j && ids[k] == id;
        lemma_first_exists(ids, id, k);
    }
}

impl PortDecision {
    /// Why no port was assigned, in words, where none was.
    pub open spec fn complaint(self, pool: RangeInclusiveView<u16>) -> Option<Seq<char>> {
        match self {
            PortDecision::PinnedTaken(port) => Some(
                "Specified game port "@ + decimal(port as nat) + " is not free"@,
            ),
            PortDecision::PoolExhausted => Some(
                "No game ports between "@ + decimal(pool.start as nat) + " and "@ + decimal(
                    pool.end as nat,
                ) + " are free"@,
            ),
            _ => None,
        }
    }
}

impl PortDecision {
    /// Why no port was assigned, in words, where none was. The pool is the
    /// one that the decision was made for.
    pub fn message(&self, pool: &RangeInclusive<u16>) -> (text: Option<String>)
        ensures
            !pool@.exhausted || *self !is PoolExhausted ==> text.deep_view() == self.complaint(
                pool@,
            ),
    {
        match self {
            PortDecision::PinnedTaken(port) => Some(
                concat3(
                    "Specified game port ",
                    decimal_text(*port as u64).as_str(),
                    " is not free",
                ),
            ),
            PortDecision::PoolExhausted => {
                let mut text = concat3(
                    "No game ports between ",
                    decimal_text(pool_start(pool) as u64).as_str(),
                    " and ",
                );
                text.append(decimal_text(pool_end(pool) as u64).as_str());
                text.append(" are free");
                Some(text)
            },
            _ => None,
        }
    }
}

/// The servers that the supervisor looks after, in the order of the latest
/// configuration, with the servers that it has dropped behind them.
#[derive(Debug)]
pub struct ServerCluster {
    servers: Vec<Server>,
}

impl View for ServerCluster {
    type V = Seq<ServerView>;

    closed spec fn view(&self) -> Seq<ServerView> {
        self.servers.deep_view()
    }
}

impl Default for ServerCluster {
    fn default() -> (cluster: Self)
        ensures
            cluster@ == Seq::<ServerView>::empty(),
    {
        ServerCluster::new()
    }
}

impl ServerCluster {
    /// A cluster without servers.
    pub fn new() -> (cluster: Self)
        ensures
            cluster@ == Seq::<ServerView>::empty(),
    {
        let cluster = ServerCluster { servers: Vec::new() };
        assert(cluster@ =~= Seq::<ServerView>::empty());
        cluster
    }

    /// The servers, in the cluster's order.
    pub fn servers(&self) -> (servers: &Vec<Server>)
        ensures
            servers.deep_view() == self@,
    {
        &self.servers
    }

    /// The place of the server with the given id.
    pub fn find(&self, name: &str) -> (found: Option<usize>)
        ensures
            found matches Some(i) ==> index_of(self@, name@) == Some(i as int) && i < self@.len(),
            found is None ==> index_of(self@, name@) is None,
    {
        let key = String::from_str(name);
        let mut i: usize = 0;
        while i < self.servers.len()
            invariant
                i <= self.servers.len(),
                key@ == name@,
                forall|j: int| 0 <= j < i ==> ids_of(self@)[j] != name@,
            decreases self.servers.len() - i,
        {
            if self.servers[i].id == key {
                proof {
                    assert(ids_of(self@)[i as int] == name@);
                    lemma_position(ids_of(self@), name@, i as int);
                }
                return Some(i);
            }
            i = i + 1;
        }
        None
    }

    /// The server with the given id, to be changed in place.
    pub fn get_mut(&mut self, name: &str) -> (found: Option<&mut Server>)
        ensures
            match found {
                Some(server) => {
                    &&& index_of(old(self)@, name@) matches Some(i)
                    &&& 0 <= i < old(self)@.len()
                    &&& server@ == old(self)@[i]
                    &&& final(self)@ == old(self)@.update(i, final(server)@)
                },
                None => index_of(old(self)@, name@) is None && final(self)@ == old(self)@,
            },
    {
        match self.find(name) {
            Some(i) => {
                let ghost before = self.servers@;
                let server = &mut self.servers[i];
                proof {
                    assert(before.update(i as int, *final(server)).map_values(|s: Server| s@)
                        =~= before.map_values(|s: Server| s@).update(i as int, final(server)@));
                }
                Some(server)
            },
            None => None,
        }
    }

    /// What a restore file holds of the cluster: an entry for each server
    /// that runs.
    pub fn serialize(&self) -> (entries: Vec<SerializedServer>)
        ensures
            entries.deep_view() == serialized(self@),
    {
        let mut entries: Vec<SerializedServer> = Vec::new();
        let mut i: usize = 0;
        assert(self@.take(0) =~= Seq::empty());
        assert(entries.deep_view() =~= serialized(self@.take(0)));
        while i < self.servers.len()
            invariant
                i <= self.servers.len(),
                entries.deep_view() == serialized(self@.take(i as int)),
            decreases self.servers.len() - i,
        {
            let ghost held = entries.deep_view();
            assert(self@.take(i + 1).drop_last() =~= self@.take(i as int));
            assert(self@.take(i + 1).last() == self.servers@[i as int]@);
            match &self.servers[i].state {
                ServerState::Running(running) => {
                    let entry = SerializedServer {
                        name: self.servers[i].id.clone(),
                        container_id: running.container_id.clone(),
                        game_port: running.game_port,
                    };
                    entries.push(entry);
                    assert(entries.deep_view() =~= held.push(entry@));
                },
                ServerState::NotRunning => {},
            }
            i = i + 1;
        }
        assert(self@.take(i as int) =~= self@);
        entries
    }

    /// Takes note of how the stops of the servers' containers ended: the
    /// outcome at a place tells of the server at that place. A server that
    /// was not asked to stop is given as one whose stop was refused.
    pub fn stop_all(&mut self, outcomes: &Vec<StopOutcome>)
        ensures
            final(self)@ == stopped_all(old(self)@, outcomes@),
            ids_of(final(self)@) == ids_of(old(self)@),
            forall|pool: RangeInclusiveView<u16>| #[trigger]
                ports_valid(old(self)@, pool) ==> ports_valid(final(self)@, pool),
    {
        proof {
            assert(ids_of(stopped_all(self@, outcomes@)) =~= ids_of(self@));
            assert forall|pool: RangeInclusiveView<u16>| #[trigger]
                ports_valid(self@, pool) implies ports_valid(
                stopped_all(self@, outcomes@),
                pool,
            ) by {
                crate::cluster_proofs::lemma_stop_keeps_ports(self@, outcomes@, pool);
            }
        }
        let mut i: usize = 0;
        while i < self.servers.len()
            invariant
                i <= self.servers.len(),
                self.servers.len() == old(self).servers.len(),
                forall|j: int|
                    0 <= j < self@.len() ==> (#[trigger] self@[j]) == if j < i {
                        old(self)@[j].stopped(outcome_at(outcomes@, j))
                    } else {
                        old(self)@[j]
                    },
            decreases self.servers.len() - i,
        {
            let outcome = if i < outcomes.len() {
                outcomes[i]
            } else {
                StopOutcome::Refused
            };
            let ghost before = self@;
            assert(outcome == outcome_at(outcomes@, i as int));
            assert(before[i as int] == old(self)@[i as int]);
            self.servers[i].stop(outcome);
            proof {
                assert(self@.len() == before.len());
                assert(self@[i as int] == before[i as int].stopped(outcome));
                assert forall|j: int| 0 <= j < self@.len() implies (#[trigger] self@[j]) == if j
                    < i + 1 {
                    old(self)@[j].stopped(outcome_at(outcomes@, j))
                } else {
                    old(self)@[j]
                } by {
                    if j != i {
                        assert(self@[j] == before[j]);
                    }
                }
            }
            i = i + 1;
        }
        assert(self@ =~= stopped_all(old(self)@, outcomes@));
    }

    /// Drops the servers that the latest configuration has dropped, and
    /// hands them out: the caller stops the containers of those that run.
    pub fn stop_old(&mut self) -> (dropped: Vec<Server>)
        ensures
            final(self)@ == current(old(self)@),
            dropped.deep_view() == outdated(old(self)@),
            ids_unique(old(self)@) ==> ids_unique(final(self)@),
            forall|i: int| 0 <= i < final(self)@.len() ==> !(#[trigger] final(self)@[i]).is_old,
            forall|pool: RangeInclusiveView<u16>| #[trigger]
                ports_valid(old(self)@, pool) ==> ports_valid(final(self)@, pool),
    {
        proof {
            if ids_unique(self@) {
                crate::cluster_proofs::lemma_stop_old_keeps_ids(self@);
            }
            assert forall|pool: RangeInclusiveView<u16>| #[trigger]
                ports_valid(self@, pool) implies ports_valid(current(self@), pool) by {
                crate::cluster_proofs::lemma_stop_old_leaves_none(self@, pool);
            }
            crate::cluster_proofs::lemma_stop_old_leaves_none(
                self@,
                RangeInclusiveView { start: 0, end: 0, exhausted: true },
            );
        }
        let ghost all = self@;
        let ghost mut n: int = 0;
        let mut rest: Vec<Server> = Vec::new();
        std::mem::swap(&mut rest, &mut self.servers);
        let mut dropped: Vec<Server> = Vec::new();
        assert(all.take(0) =~= Seq::empty());
        assert(self@ =~= current(all.take(0)));
        assert(dropped.deep_view() =~= outdated(all.take(0)));
        assert(rest.deep_view() =~= all.skip(0));
        while rest.len() > 0
            invariant
                0 <= n,
                n + rest.len() == all.len(),
                rest.deep_view() =~= all.skip(n),
                self@ == current(all.take(n)),
                dropped.deep_view() == outdated(all.take(n)),
            decreases rest.len(),
        {
            let ghost before = rest.deep_view();
            let ghost kept = self@;
            let ghost gone = dropped.deep_view();
            let server = rest.remove(0);
            proof {
                assert(server@ == before[0]);
                assert forall|i: int| 0 <= i < rest@.len() implies rest.deep_view()[i] == all.skip(
                    n + 1,
                )[i] by {
                    assert(rest.deep_view()[i] == before[i + 1]);
                    assert(before[i + 1] == all.skip(n)[i + 1]);
                }
                assert(rest.deep_view() =~= all.skip(n + 1));
                assert(all.take(n + 1).drop_last() =~= all.take(n));
                assert(all.take(n + 1).last() == server@);
            }
            if server.is_old {
                dropped.push(server);
                assert(dropped.deep_view() =~= gone.push(server@));
            } else {
                self.servers.push(server);
                assert(self@ =~= kept.push(server@));
            }
            proof {
                n = n + 1;
            }
        }
        assert(all.take(n) =~= all);
        dropped
    }

    /// Begins a poll at `poll_time`. The report at a place is what the
    /// engine says of the container of the server at that place, and nothing
    /// where the engine could not find the container.
    ///
    /// A server whose container has stopped does not run afterwards. The
    /// result names the places of the servers whose scheduled restart has
    /// passed: the caller stops their containers.
    pub fn sweep(&mut self, poll_time: &Timestamp, reports: &Vec<Option<InspectReport>>) -> (restarts:
        Vec<usize>)
        ensures
            final(self)@ == swept(old(self)@, reports.deep_view()),
            restarts@.map_values(|i: usize| i as int) == due(
                old(self)@,
                reports.deep_view(),
                *poll_time,
                old(self)@.len() as int,
            ),
            ids_of(final(self)@) == ids_of(old(self)@),
            forall|pool: RangeInclusiveView<u16>| #[trigger]
                ports_valid(old(self)@, pool) ==> ports_valid(final(self)@, pool),
    {
        proof {
            assert(ids_of(swept(self@, reports.deep_view())) =~= ids_of(self@));
            assert forall|pool: RangeInclusiveView<u16>| #[trigger]
                ports_valid(self@, pool) implies ports_valid(
                swept(self@, reports.deep_view()),
                pool,
            ) by {
                crate::cluster_proofs::lemma_sweep_keeps_ports(self@, reports.deep_view(), pool);
            }
        }
        let ghost all = self@;
        let ghost said = reports.deep_view();
        let mut restarts: Vec<usize> = Vec::new();
        let mut i: usize = 0;
        assert(restarts@.map_values(|i: usize| i as int) =~= due(all, said, *poll_time, 0));
        while i < self.servers.len()
            invariant
                i <= self.servers.len(),
                self.servers.len() == all.len(),
                said == reports.deep_view(),
                forall|j: int|
                    0 <= j < all.len() ==> (#[trigger] self@[j]) == if j < i {
                        swept_one(all[j], report_at(said, j))
                    } else {
                        all[j]
                    },
                restarts@.map_values(|i: usize| i as int) == due(all, said, *poll_time, i as int),
            decreases self.servers.len() - i,
        {
            let ghost listed = restarts@.map_values(|i: usize| i as int);
            assert(self@[i as int] == all[i as int]);
            let stopped = if i < reports.len() {
                match &reports[i] {
                    Some(report) => !report.is_running(),
                    None => true,
                }
            } else {
                true
            };
            assert(stopped == has_stopped(report_at(said, i as int)));
            let mut is_due = false;
            match &self.servers[i].state {
                ServerState::Running(running) => {
                    if !stopped {
                        match &self.servers[i].config.game_config.restart_schedule {
                            Some(schedule) => {
                                match schedule.next_after(&running.start_time) {
                                    Some(next) => {
                                        is_due = next.is_before(poll_time);
                                    },
                                    None => {},
                                }
                            },
                            None => {},
                        }
                    }
                },
                ServerState::NotRunning => {},
            }
            assert(is_due == self::is_due(all[i as int], report_at(said, i as int), *poll_time));
            if is_due {
                restarts.push(i);
                assert(restarts@.map_values(|i: usize| i as int) =~= listed.push(i as int));
            }
            if stopped && self.servers[i].is_running() {
                self.servers[i].state = ServerState::NotRunning;
            }
            i = i + 1;
        }
        assert(self@ =~= swept(all, said));
        restarts
    }

    /// Decides what to start: each server that does not run is assigned a
    /// game port, or a reason why it gets none. Nothing is changed.
    pub fn plan(&self, config: &Config) -> (decisions: Vec<PortDecision>)
        ensures
            decisions@ == plan(self@, config.game_ports@),
    {
        let ghost pool = config.game_ports@;
        let mut used: HashSet<u16> = HashSet::new();
        let mut i: usize = 0;
        assert(used@ =~= ports_in_use(self@.take(0)));
        while i < self.servers.len()
            invariant
                i <= self.servers.len(),
                used@ == ports_in_use(self@.take(i as int)),
            decreases self.servers.len() - i,
        {
            proof {
                lemma_ports_in_use_push(self@, i as int);
            }
            match &self.servers[i].state {
                ServerState::Running(running) => {
                    used.insert(running.game_port);
                },
                ServerState::NotRunning => {},
            }
            i = i + 1;
        }
        assert(self@.take(i as int) =~= self@);

        let mut decisions: Vec<PortDecision> = Vec::new();
        let mut k: usize = 0;
        while k < self.servers.len()
            invariant
                k <= self.servers.len(),
                pool == config.game_ports@,
                used@ == used_after(self@, pool, k as int),
                decisions@ == plan(self@, pool).take(k as int),
            decreases self.servers.len() - k,
        {
            let decision = if self.servers[k].is_running() {
                PortDecision::NotQueued
            } else {
                match self.servers[k].config.game_port {
                    Some(port) => {
                        if used.contains(&port) {
                            PortDecision::PinnedTaken(port)
                        } else {
                            PortDecision::Assigned(port)
                        }
                    },
                    None => match find_free(&config.game_ports, &used) {
                        Some(port) => PortDecision::Assigned(port),
                        None => PortDecision::PoolExhausted,
                    },
                }
            };
            assert(decision == decide(self@[k as int], pool, used@));
            match decision {
                PortDecision::Assigned(port) => {
                    used.insert(port);
                },
                _ => {},
            }
            decisions.push(decision);
            assert(decisions@ =~= plan(self@, pool).take(k + 1));
            k = k + 1;
        }
        assert(plan(self@, pool).take(k as int) =~= plan(self@, pool));
        decisions
    }

    /// Ends a poll: takes note of how the starts of the containers ended.
    /// The report at a place tells of the server at that place; only the
    /// servers that `plan` assigns a port are looked at.
    ///
    /// A server whose container came up runs afterwards on the port that it
    /// was assigned. The result says whether there was anything to start,
    /// and for each server why its start failed, if it did.
    pub fn poll(&mut self, config: &Config, starts: Vec<Option<StartReport>>) -> (result: (
        PollStatus,
        Vec<Option<StartServerError>>,
    ))
        ensures
            final(self)@ == polled(old(self)@, config.game_ports@, starts.deep_view()),
            result.0 == if has_work(plan(old(self)@, config.game_ports@)) {
                PollStatus::DidWork
            } else {
                PollStatus::NoWork
            },
            result.1.deep_view() == poll_errors(
                old(self)@,
                config.game_ports@,
                starts.deep_view(),
            ),
            ids_of(final(self)@) == ids_of(old(self)@),
            ports_valid(old(self)@, config.game_ports@) ==> ports_valid(
                final(self)@,
                config.game_ports@,
            ),
    {
        proof {
            assert(ids_of(polled(self@, config.game_ports@, starts.deep_view())) =~= ids_of(
                self@,
            ));
            if ports_valid(self@, config.game_ports@) {
                crate::cluster_proofs::lemma_poll_keeps_ports(
                    self@,
                    config.game_ports@,
                    starts.deep_view(),
                );
            }
        }
        let ghost all = self@;
        let ghost pool = config.game_ports@;
        let ghost said = starts.deep_view();
        let decisions = self.plan(config);
        let mut rest = starts;
        let mut errors: Vec<Option<StartServerError>> = Vec::new();
        let mut did_work = false;
        let mut i: usize = 0;
        assert(errors.deep_view() =~= poll_errors(all, pool, said).take(0));
        assert(rest.deep_view() =~= said.skip(0));
        while i < self.servers.len()
            invariant
                i <= self.servers.len(),
                self.servers.len() == all.len(),
                decisions@ == plan(all, pool),
                i <= said.len() ==> rest.deep_view() =~= said.skip(i as int),
                i > said.len() ==> rest.len() == 0,
                forall|j: int|
                    0 <= j < all.len() ==> (#[trigger] self@[j]) == if j < i {
                        polled(all, pool, said)[j]
                    } else {
                        all[j]
                    },
                errors.deep_view() == poll_errors(all, pool, said).take(i as int),
                did_work == exists|j: int| 0 <= j < i && (#[trigger] decisions@[j]) is Assigned,
            decreases self.servers.len() - i,
        {
            let ghost before = self@;
            let ghost held = errors.deep_view();
            let ghost waiting = rest.deep_view();
            let report = if rest.len() > 0 {
                rest.remove(0)
            } else {
                None
            };
            proof {
                if i < said.len() {
                    assert(waiting[0] == said[i as int]);
                    assert forall|j: int| 0 <= j < rest@.len() implies rest.deep_view()[j]
                        == said.skip(i + 1)[j] by {
                        assert(rest.deep_view()[j] == waiting[j + 1]);
                        assert(waiting[j + 1] == said.skip(i as int)[j + 1]);
                    }
                    assert(rest.deep_view() =~= said.skip(i + 1));
                }
            }
            let report = match report {
                Some(report) => report,
                None => StartReport::Failed(String::new()),
            };
            assert(report@ == start_at(said, i as int));
            let error = match decisions[i] {
                PortDecision::Assigned(port) => {
                    did_work = true;
                    assert(before[i as int] == all[i as int]);
                    match self.servers[i].start(port, report) {
                        Ok(_) => None,
                        Err(error) => Some(error),
                    }
                },
                _ => None,
            };
            errors.push(error);
            proof {
                assert(errors.deep_view() =~= held.push(poll_errors(all, pool, said)[i as int]));
                assert(errors.deep_view() =~= poll_errors(all, pool, said).take(i + 1));
                assert forall|j: int| 0 <= j < all.len() implies (#[trigger] self@[j]) == if j < i
                    + 1 {
                    polled(all, pool, said)[j]
                } else {
                    all[j]
                } by {
                    if j != i {
                        assert(self@[j] == before[j]);
                    }
                }
            }
            i = i + 1;
        }
        assert(self@ =~= polled(all, pool, said));
        assert(poll_errors(all, pool, said).take(i as int) =~= poll_errors(all, pool, said));
        let status = if did_work {
            PollStatus::DidWork
        } else {
            PollStatus::NoWork
        };
        (status, errors)
    }

    /// Takes over the containers that a restore file tells of. The report
    /// at a place is what the engine says of the container of the entry at
    /// that place, and nothing where the engine could not find it.
    ///
    /// An entry is passed over where the cluster holds no server of its name,
    /// where its container does not run, and where the engine does not say
    /// when it created the container. The result says for each entry what
    /// became of it.
    pub fn deserialize(
        &mut self,
        serialized_servers: Vec<SerializedServer>,
        reports: &Vec<Option<InspectReport>>,
    ) -> (outcomes: Vec<RestoreOutcome>)
        ensures
            final(self)@ == restored(
                old(self)@,
                serialized_servers.deep_view(),
                reports.deep_view(),
                serialized_servers.len() as int,
            ),
            outcomes@ == restore_outcomes(
                old(self)@,
                serialized_servers.deep_view(),
                reports.deep_view(),
                serialized_servers.len() as int,
            ),
            ids_of(final(self)@) == ids_of(old(self)@),
    {
        proof {
            crate::cluster_proofs::lemma_restore_keeps_ids(
                self@,
                serialized_servers.deep_view(),
                reports.deep_view(),
                serialized_servers.len() as int,
            );
        }
        let ghost all = self@;
        let ghost entries = serialized_servers.deep_view();
        let ghost said = reports.deep_view();
        let mut outcomes: Vec<RestoreOutcome> = Vec::new();
        let mut k: usize = 0;
        while k < serialized_servers.len()
            invariant
                k <= serialized_servers.len(),
                entries == serialized_servers.deep_view(),
                said == reports.deep_view(),
                self@ == restored(all, entries, said, k as int),
                outcomes@ == restore_outcomes(all, entries, said, k as int),
            decreases serialized_servers.len() - k,
        {
            let ghost before = self@;
            let entry = &serialized_servers[k];
            assert(entry@ == entries[k as int]);
            let ghost report = report_at(said, k as int);
            let outcome = match self.find(entry.name.as_str()) {
                None => RestoreOutcome::UnknownServer,
                Some(i) => {
                    let running = if k < reports.len() {
                        match &reports[k] {
                            Some(r) => if r.is_running() {
                                Some(r.created_at())
                            } else {
                                None
                            },
                            None => None,
                        }
                    } else {
                        None
                    };
                    match running {
                        None => RestoreOutcome::NotRunning,
                        Some(None) => RestoreOutcome::NoCreatedTime,
                        Some(Some(start_time)) => {
                            self.servers[i].state = ServerState::Running(
                                RunningServer {
                                    container_id: entry.container_id.clone(),
                                    game_port: entry.game_port,
                                    start_time,
                                },
                            );
                            RestoreOutcome::Restored
                        },
                    }
                },
            };
            proof {
                assert(outcome == restore_outcome(before, entries[k as int], report));
                assert(self@ =~= restored_one(before, entries[k as int], report));
            }
            outcomes.push(outcome);
            k = k + 1;
        }
        outcomes
    }

    /// Takes in a new list of declared servers.
    ///
    /// Each new server takes over the state of the server that the cluster
    /// holds under its id, so that a container that runs stays with it. A
    /// server that the new list leaves out and that still runs is kept behind
    /// the new ones and marked as old; one that does not run is dropped.
    ///
    /// No two servers of the cluster share an id, and neither do two of the
    /// new list.
    pub fn load_servers(&mut self, new_servers: Vec<Server>)
        requires
            ids_unique(old(self)@),
            ids_unique(new_servers.deep_view()),
        ensures
            final(self)@ == loaded(old(self)@, new_servers.deep_view()),
            ids_unique(final(self)@),
    {
        let ghost all = self@;
        let ghost declared = new_servers.deep_view();
        proof {
            crate::cluster_proofs::lemma_load_keeps_ids(all, declared);
        }
        let mut new_servers = new_servers;
        let mut i: usize = 0;
        while i < new_servers.len()
            invariant
                i <= new_servers.len(),
                new_servers.len() == declared.len(),
                self.servers.len() == all.len(),
                ids_unique(all),
                ids_unique(declared),
                forall|k: int|
                    0 <= k < declared.len() ==> (#[trigger] new_servers.deep_view()[k]) == if k
                        < i {
                        adopted(declared[k], all)
                    } else {
                        declared[k]
                    },
                forall|j: int|
                    0 <= j < all.len() ==> (#[trigger] self@[j]) == if taken(
                        all,
                        declared,
                        i as int,
                        j,
                    ) {
                        ServerView { state: None, ..all[j] }
                    } else {
                        all[j]
                    },
            decreases new_servers.len() - i,
        {
            let ghost before = self@;
            let ghost fresh = new_servers.deep_view();
            proof {
                assert(fresh[i as int] == declared[i as int]);
                assert(ids_of(before) =~= ids_of(all)) by {
                    assert forall|j: int| 0 <= j < all.len() implies ids_of(before)[j] == ids_of(
                        all,
                    )[j] by {
                        assert(before[j].id == all[j].id);
                    }
                }
            }
            match self.find(new_servers[i].id.as_str()) {
                Some(j) => {
                    proof {
                        lemma_position_finds(ids_of(all), declared[i as int].id);
                        lemma_not_taken_yet(all, declared, i as int, j as int);
                        assert(before[j as int] == all[j as int]);
                    }
                    let mut state = ServerState::NotRunning;
                    std::mem::swap(&mut state, &mut self.servers[j].state);
                    new_servers[i].state = state;
                    proof {
                        assert forall|m: int| 0 <= m < all.len() implies (#[trigger] self@[m])
                            == if taken(all, declared, i + 1, m) {
                            ServerView { state: None, ..all[m] }
                        } else {
                            all[m]
                        } by {
                            if m != j {
                                assert(self@[m] == before[m]);
                                if taken(all, declared, i + 1, m) && !taken(all, declared, i as int, m) {
                                    let k = choose|k: int|
                                        0 <= k < i + 1 && index_of(all, declared[k].id) == Some(m);
                                    assert(k == i);
                                }
                            } else {
                                assert(index_of(all, declared[i as int].id) == Some(m));
                            }
                        }
                    }
                },
                None => {
                    proof {
                        assert forall|m: int| 0 <= m < all.len() implies taken(
                            all,
                            declared,
                            i + 1,
                            m,
                        ) == taken(all, declared, i as int, m) by {
                            if taken(all, declared, i + 1, m) {
                                let k = choose|k: int|
                                    0 <= k < i + 1 && index_of(all, declared[k].id) == Some(m);
                                assert(k != i);
                            }
                        }
                    }
                },
            }
            proof {
                assert forall|k: int| 0 <= k < declared.len() implies (
                #[trigger] new_servers.deep_view()[k]) == if k < i + 1 {
                    adopted(declared[k], all)
                } else {
                    declared[k]
                } by {
                    if k != i {
                        assert(new_servers.deep_view()[k] == fresh[k]);
                    }
                }
            }
            i = i + 1;
        }
        assert(new_servers.deep_view() =~= adopted_all(declared, all));

        let ghost moved = self@;
        let ghost mut n: int = 0;
        let mut rest = new_servers;
        std::mem::swap(&mut rest, &mut self.servers);
        assert(all.take(0) =~= Seq::empty());
        assert(self@ =~= adopted_all(declared, all) + leftovers(all.take(0), declared));
        assert(rest.deep_view() =~= moved.skip(0));
        while rest.len() > 0
            invariant
                0 <= n,
                n + rest.len() == all.len(),
                moved.len() == all.len(),
                ids_unique(all),
                rest.deep_view() =~= moved.skip(n),
                forall|j: int|
                    0 <= j < all.len() ==> (#[trigger] moved[j]) == if taken(
                        all,
                        declared,
                        declared.len() as int,
                        j,
                    ) {
                        ServerView { state: None, ..all[j] }
                    } else {
                        all[j]
                    },
                self@ == adopted_all(declared, all) + leftovers(all.take(n), declared),
            decreases rest.len(),
        {
            let ghost waiting = rest.deep_view();
            let ghost kept = self@;
            let mut server = rest.remove(0);
            proof {
                assert(server@ == waiting[0]);
                assert(waiting[0] == moved.skip(n)[0]);
                assert forall|j: int| 0 <= j < rest@.len() implies rest.deep_view()[j] == moved.skip(
                    n + 1,
                )[j] by {
                    assert(rest.deep_view()[j] == waiting[j + 1]);
                    assert(waiting[j + 1] == moved.skip(n)[j + 1]);
                }
                assert(rest.deep_view() =~= moved.skip(n + 1));
                assert(all.take(n + 1).drop_last() =~= all.take(n));
                assert(all.take(n + 1).last() == all[n]);
                lemma_taken_is_declared(all, declared, n);
                assert(server@ == moved[n]);
            }
            if server.is_running() {
                server.is_old = true;
                self.servers.push(server);
                assert(self@ =~= kept.push(all[n].marked_old()));
            }
            proof {
                assert(self@ =~= adopted_all(declared, all) + leftovers(all.take(n + 1), declared));
                n = n + 1;
            }
        }
        assert(all.take(n) =~= all);
    }
}

/// Whether no two of the servers share an id.
pub fn ids_are_unique(servers: &Vec<Server>) -> (unique: bool)
    ensures
        unique == ids_unique(servers.deep_view()),
{
    let ghost all = servers.deep_view();
    let mut j: usize = 0;
    while j < servers.len()
        invariant
            j <= servers.len(),
            all == servers.deep_view(),
            forall|a: int, b: int| 0 <= a < b < j ==> (#[trigger] all[a]).id != (#[trigger] all[b]).id,
        decreases servers.len() - j,
    {
        let mut i: usize = 0;
        while i < j
            invariant
                i <= j < servers.len(),
                all == servers.deep_view(),
                forall|a: int| 0 <= a < i ==> (#[trigger] all[a]).id != all[j as int].id,
            decreases j - i,
        {
            if servers[i].id == servers[j].id {
                assert(all[i as int].id == all[j as int].id);
                return false;
            }
            i = i + 1;
        }
        j = j + 1;
    }
    true
}

/// Looks for the first port of the pool that is not in use.
fn find_free(pool: &RangeInclusive<u16>, used: &HashSet<u16>) -> (port: Option<u16>)
    ensures
        port == free_port(pool@, used@),
{
    if pool_is_empty(pool) {
        return None;
    }
    let start = pool_start(pool);
    let end = pool_end(pool);
    let mut port: u16 = start;
    loop
        invariant
            start <= port <= end,
            !pool@.exhausted,
            start == pool@.start,
            end == pool@.end,
            free_port(pool@, used@) == first_free_from(end, used@, port as int),
        decreases end - port,
    {
        if !used.contains(&port) {
            return Some(port);
        }
        if port == end {
            assert(first_free_from(end, used@, port + 1) is None);
            return None;
        }
        port = port + 1;
    }
}

/// Whether one of the first `i` new servers takes over the state of the
/// server at `j`.
pub open spec fn taken(servers: Seq<ServerView>, declared: Seq<ServerView>, i: int, j: int) -> bool {
    exists|k: int| 0 <= k < i && k < declared.len() && index_of(servers, #[trigger] declared[k].id) == Some(j)
}

/// While the new servers take their turns, the server that the next one
/// finds has not been taken by one before it.
proof fn lemma_not_taken_yet(servers: Seq<ServerView>, declared: Seq<ServerView>, i: int, j: int)
    requires
        ids_unique(declared),
        0 <= i < declared.len(),
        index_of(servers, declared[i].id) == Some(j),
    ensures
        !taken(servers, declared, i, j),
{
    if taken(servers, declared, i, j) {
        let k = choose|k: int|
            0 <= k < i && k < declared.len() && index_of(servers, #[trigger] declared[k].id)
                == Some(j);
        lemma_position_finds(ids_of(servers), declared[k].id);
        lemma_position_finds(ids_of(servers), declared[i].id);
        assert(declared[k].id == servers[j].id);
        assert(declared[i].id == servers[j].id);
    }
}

/// A server is taken by one of the new servers just when the new servers
/// hold its id.
proof fn lemma_taken_is_declared(servers: Seq<ServerView>, declared: Seq<ServerView>, j: int)
    requires
        ids_unique(servers),
        0 <= j < servers.len(),
    ensures
        taken(servers, declared, declared.len() as int, j) <==> index_of(declared, servers[j].id)
            is Some,
{
    let id = servers[j].id;
    lemma_position_finds(ids_of(declared), id);
    if index_of(declared, id) is Some {
        let k = index_of(declared, id)->0;
        assert(declared[k].id == id);
        assert(ids_of(servers)[j] == id);
        lemma_first_exists(ids_of(servers), id, j);
        lemma_position_finds(ids_of(servers), id);
        let f = index_of(servers, id)->0;
        assert(servers[f].id == servers[j].id);
        assert(f == j);
        assert(index_of(servers, declared[k].id) == Some(j));
    }
    if taken(servers, declared, declared.len() as int, j) {
        let k = choose|k: int|
            0 <= k < declared.len() && k < declared.len() && index_of(
                servers,
                #[trigger] declared[k].id,
            ) == Some(j);
        lemma_position_finds(ids_of(servers), declared[k].id);
        assert(ids_of(declared)[k] == id);
    }
}

/// The ports in use among the first `i + 1` servers are those among the
/// first `i`, and the port of the server at `i` if it runs.
proof fn lemma_ports_in_use_push(servers: Seq<ServerView>, i: int)
    requires
        0 <= i < servers.len(),
    ensures
        ports_in_use(servers.take(i + 1)) == match servers[i].state {
            Some(running) => ports_in_use(servers.take(i)).insert(running.game_port),
            None => ports_in_use(servers.take(i)),
        },
{
    let more = servers.take(i + 1);
    let fewer = servers.take(i);
    let expected = match servers[i].state {
        Some(running) => ports_in_use(fewer).insert(running.game_port),
        None => ports_in_use(fewer),
    };
    assert forall|port: u16| ports_in_use(more).contains(port) <==> expected.contains(port) by {
        if ports_in_use(more).contains(port) {
            let k = choose|k: int| runs_on(more, k, port);
            if k < i {
                assert(runs_on(fewer, k, port));
            }
        }
        if ports_in_use(fewer).contains(port) {
            let k = choose|k: int| runs_on(fewer, k, port);
            assert(runs_on(more, k, port));
        }
        if servers[i].state matches Some(running) && running.game_port == port {
            assert(runs_on(more, i, port));
        }
    }
    assert(ports_in_use(more) =~= expected);
}


} // verus!
