//! What holds of the cluster whatever the engine does: the laws of the
//! control loop, proved from the functions that describe its steps.

use crate::clock::Timestamp;
use crate::engine::{has_stopped, InspectReportView, StartReportView, StopOutcome};
use crate::server::ServerView;
use crate::server_cluster::{
    adopted, current, due, first_free_from, free_port, ids_of, ids_unique, index_of, is_due,
    is_leftover, leftovers, lemma_first_exists, lemma_position_finds, loaded, outcome_at, plan, polled,
    pool_has,
    ports_in_use, report_at, restore_outcome, restored, runs_on, serialized, start_at, stopped_all,
    swept, used_after, PortDecision, RestoreOutcome, SerializedView,
};
use vstd::prelude::*;
use vstd::std_specs::range::RangeInclusiveView;

verus! {

/// Whether no two running servers hold the same game port.
pub open spec fn ports_unique(servers: Seq<ServerView>) -> bool {
    forall|i: int, j: int|
        0 <= i < j < servers.len() && (#[trigger] servers[i]).state is Some && (
        #[trigger] servers[j]).state is Some ==> servers[i].state->0.game_port
            != servers[j].state->0.game_port
}

/// Whether the server may hold the port: it insists on the port, or the
/// port is one of the pool.
pub open spec fn port_allowed(server: ServerView, pool: RangeInclusiveView<u16>, port: u16) -> bool {
    server.config.game_port == Some(port) || pool_has(pool, port)
}

/// Whether every running server holds a port that it may hold.
pub open spec fn ports_allowed(servers: Seq<ServerView>, pool: RangeInclusiveView<u16>) -> bool {
    forall|i: int|
        0 <= i < servers.len() && (#[trigger] servers[i]).state is Some ==> port_allowed(
            servers[i],
            pool,
            servers[i].state->0.game_port,
        )
}

/// Whether the game ports are in order: no two running servers share one,
/// and each holds its own or one of the pool.
pub open spec fn ports_valid(servers: Seq<ServerView>, pool: RangeInclusiveView<u16>) -> bool {
    ports_unique(servers) && ports_allowed(servers, pool)
}

/// Whether no server runs.
pub open spec fn none_running(servers: Seq<ServerView>) -> bool {
    forall|i: int| 0 <= i < servers.len() ==> (#[trigger] servers[i]).state is None
}

/// The liveness check keeps the game ports in order.
pub proof fn lemma_sweep_keeps_ports(
    servers: Seq<ServerView>,
    reports: Seq<Option<InspectReportView>>,
    pool: RangeInclusiveView<u16>,
)
    requires
        ports_valid(servers, pool),
    ensures
        ports_valid(swept(servers, reports), pool),
{
    let after = swept(servers, reports);
    assert forall|i: int, j: int|
        0 <= i < j < after.len() && (#[trigger] after[i]).state is Some && (
        #[trigger] after[j]).state is Some implies after[i].state->0.game_port
        != after[j].state->0.game_port by {
        assert(after[i] == servers[i]);
        assert(after[j] == servers[j]);
    }
    assert forall|i: int| 0 <= i < after.len() && (#[trigger] after[i]).state is Some implies port_allowed(
        after[i],
        pool,
        after[i].state->0.game_port,
    ) by {
        assert(after[i] == servers[i]);
    }
}

/// Stopping servers keeps the game ports in order.
pub proof fn lemma_stop_keeps_ports(
    servers: Seq<ServerView>,
    outcomes: Seq<StopOutcome>,
    pool: RangeInclusiveView<u16>,
)
    requires
        ports_valid(servers, pool),
    ensures
        ports_valid(stopped_all(servers, outcomes), pool),
{
    let after = stopped_all(servers, outcomes);
    assert forall|i: int, j: int|
        0 <= i < j < after.len() && (#[trigger] after[i]).state is Some && (
        #[trigger] after[j]).state is Some implies after[i].state->0.game_port
        != after[j].state->0.game_port by {
        assert(after[i] == servers[i]);
        assert(after[j] == servers[j]);
    }
    assert forall|i: int| 0 <= i < after.len() && (#[trigger] after[i]).state is Some implies port_allowed(
        after[i],
        pool,
        after[i].state->0.game_port,
    ) by {
        assert(after[i] == servers[i]);
    }
}

/// Each server that is kept when the old ones are dropped is a server of
/// the cluster, and the servers that are kept stand in the cluster's order.
pub proof fn lemma_current_is_part(servers: Seq<ServerView>, i: int) -> (k: int)
    requires
        0 <= i < current(servers).len(),
    ensures
        0 <= k < servers.len(),
        servers[k] == current(servers)[i],
        !servers[k].is_old,
        forall|j: int|
            #![trigger current(servers)[j]]
            i < j < current(servers).len() ==> exists|m: int|
                k < m < servers.len() && servers[m] == current(servers)[j],
    decreases servers.len(),
{
    let init = servers.drop_last();
    if servers.last().is_old {
        let k = lemma_current_is_part(init, i);
        assert forall|j: int|
            #![trigger current(servers)[j]]
            i < j < current(servers).len() implies exists|m: int|
            k < m < servers.len() && servers[m] == current(servers)[j] by {
            assert(current(init)[j] == current(servers)[j]);
            let m = choose|m: int| k < m < init.len() && init[m] == current(init)[j];
            assert(servers[m] == current(servers)[j]);
        }
        k
    } else if i == current(init).len() {
        servers.len() - 1
    } else {
        let k = lemma_current_is_part(init, i);
        assert forall|j: int|
            #![trigger current(servers)[j]]
            i < j < current(servers).len() implies exists|m: int|
            k < m < servers.len() && servers[m] == current(servers)[j] by {
            if j < current(init).len() {
                assert(current(init)[j] == current(servers)[j]);
                let m = choose|m: int| k < m < init.len() && init[m] == current(init)[j];
                assert(servers[m] == current(servers)[j]);
            } else {
                assert(servers[servers.len() - 1] == current(servers)[j]);
            }
        }
        k
    }
}

/// After the old servers are dropped, none of the servers is old, and the
/// game ports are still in order.
pub proof fn lemma_stop_old_leaves_none(servers: Seq<ServerView>, pool: RangeInclusiveView<u16>)
    ensures
        forall|i: int| 0 <= i < current(servers).len() ==> !(#[trigger] current(servers)[i]).is_old,
        ports_valid(servers, pool) ==> ports_valid(current(servers), pool),
{
    let kept = current(servers);
    assert forall|i: int| 0 <= i < kept.len() implies !(#[trigger] kept[i]).is_old by {
        lemma_current_is_part(servers, i);
    }
    if ports_valid(servers, pool) {
        assert forall|i: int, j: int|
            0 <= i < j < kept.len() && (#[trigger] kept[i]).state is Some && (
            #[trigger] kept[j]).state is Some implies kept[i].state->0.game_port
            != kept[j].state->0.game_port by {
            let k = lemma_current_is_part(servers, i);
            let m = choose|m: int| k < m < servers.len() && servers[m] == current(servers)[j];
            assert(servers[k].state is Some && servers[m].state is Some);
        }
        assert forall|i: int| 0 <= i < kept.len() && (#[trigger] kept[i]).state is Some implies port_allowed(
            kept[i],
            pool,
            kept[i].state->0.game_port,
        ) by {
            let k = lemma_current_is_part(servers, i);
            assert(servers[k].state is Some);
        }
    }
}

/// The port that is found free is the lowest port of the pool that is not
/// in use; none is found only where every port of the pool is in use.
pub proof fn lemma_free_port(pool: RangeInclusiveView<u16>, used: Set<u16>)
    ensures
        free_port(pool, used) matches Some(port) ==> {
            &&& pool_has(pool, port)
            &&& !used.contains(port)
            &&& forall|lower: u16| pool_has(pool, lower) && lower < port ==> used.contains(lower)
        },
        free_port(pool, used) is None ==> forall|port: u16|
            pool_has(pool, port) ==> used.contains(port),
{
    if !pool.exhausted {
        lemma_first_free_from(pool.end, used, pool.start as int);
    }
}

/// The same, for the search from a given port upwards.
pub proof fn lemma_first_free_from(end: u16, used: Set<u16>, from: int)
    requires
        0 <= from,
    ensures
        first_free_from(end, used, from) matches Some(port) ==> {
            &&& from <= port <= end
            &&& !used.contains(port)
            &&& forall|lower: u16| from <= lower < port ==> used.contains(lower)
        },
        first_free_from(end, used, from) is None ==> forall|port: u16|
            from <= port <= end ==> used.contains(port),
    decreases end - from + 1,
{
    if from <= end && used.contains(from as u16) {
        lemma_first_free_from(end, used, from + 1);
    }
}

/// A port that is taken stays taken while the servers take their turns.
pub proof fn lemma_used_grows(
    servers: Seq<ServerView>,
    pool: RangeInclusiveView<u16>,
    k: int,
    m: int,
    port: u16,
)
    requires
        0 <= k <= m,
        used_after(servers, pool, k).contains(port),
    ensures
        used_after(servers, pool, m).contains(port),
    decreases m,
{
    if k < m {
        lemma_used_grows(servers, pool, k, m - 1, port);
    }
}

/// A port that a running server holds is taken from the start.
pub proof fn lemma_running_port_is_used(
    servers: Seq<ServerView>,
    pool: RangeInclusiveView<u16>,
    i: int,
    k: int,
)
    requires
        0 <= i < servers.len(),
        servers[i].state is Some,
        0 <= k,
    ensures
        used_after(servers, pool, k).contains(servers[i].state->0.game_port),
{
    assert(runs_on(servers, i, servers[i].state->0.game_port));
    lemma_used_grows(servers, pool, 0, k, servers[i].state->0.game_port);
}

/// A port is assigned only to a server that does not run, was free when it
/// was assigned, is taken afterwards, and is one that the server may hold.
pub proof fn lemma_assigned_port(servers: Seq<ServerView>, pool: RangeInclusiveView<u16>, i: int)
    requires
        0 <= i < servers.len(),
        plan(servers, pool)[i] is Assigned,
    ensures
        servers[i].state is None,
        !used_after(servers, pool, i).contains(plan(servers, pool)[i]->Assigned_0),
        used_after(servers, pool, i + 1).contains(plan(servers, pool)[i]->Assigned_0),
        port_allowed(servers[i], pool, plan(servers, pool)[i]->Assigned_0),
{
    lemma_free_port(pool, used_after(servers, pool, i));
}

/// A poll keeps the game ports in order: the ports that it assigns are
/// free, differ from each other, and are the server's own or the pool's.
pub proof fn lemma_poll_keeps_ports(
    servers: Seq<ServerView>,
    pool: RangeInclusiveView<u16>,
    starts: Seq<Option<StartReportView>>,
)
    requires
        ports_valid(servers, pool),
    ensures
        ports_valid(polled(servers, pool, starts), pool),
{
    let after = polled(servers, pool, starts);
    let decisions = plan(servers, pool);
    assert forall|i: int| 0 <= i < after.len() && (#[trigger] after[i]).state is Some implies {
        &&& port_allowed(after[i], pool, after[i].state->0.game_port)
        &&& used_after(servers, pool, i + 1).contains(after[i].state->0.game_port)
        &&& servers[i].state is None ==> decisions[i] == PortDecision::Assigned(
            after[i].state->0.game_port,
        )
    } by {
        if servers[i].state is Some {
            assert(decisions[i] == PortDecision::NotQueued);
            assert(after[i] == servers[i]);
            lemma_running_port_is_used(servers, pool, i, i + 1);
        } else {
            assert(decisions[i] is Assigned);
            lemma_assigned_port(servers, pool, i);
        }
    }
    assert forall|i: int, j: int|
        0 <= i < j < after.len() && (#[trigger] after[i]).state is Some && (
        #[trigger] after[j]).state is Some implies after[i].state->0.game_port
        != after[j].state->0.game_port by {
        let p = after[i].state->0.game_port;
        if servers[j].state is Some {
            assert(after[j] == servers[j]);
            if servers[i].state is Some {
                assert(after[i] == servers[i]);
            } else {
                lemma_assigned_port(servers, pool, i);
                lemma_running_port_is_used(servers, pool, j, i);
            }
        } else {
            lemma_assigned_port(servers, pool, j);
            lemma_used_grows(servers, pool, i + 1, j, p);
        }
    }
}

/// A server that does not run is assigned a port where its own port is
/// free at its turn, or, if it has none of its own, where a port of the pool
/// is free at its turn.
pub proof fn lemma_free_port_is_assigned(servers: Seq<ServerView>, pool: RangeInclusiveView<u16>, i: int, free: u16)
    requires
        0 <= i < servers.len(),
        servers[i].state is None,
        !used_after(servers, pool, i).contains(free),
        servers[i].config.game_port matches Some(own) ==> own == free,
        servers[i].config.game_port is None ==> pool_has(pool, free),
    ensures
        plan(servers, pool)[i] is Assigned,
{
    lemma_free_port(pool, used_after(servers, pool, i));
}

/// Of two servers that do not run and insist on the same port, the one
/// that stands first gets the port if it is free at its turn, and the other
/// gets none.
pub proof fn lemma_first_pinned_server_wins(
    servers: Seq<ServerView>,
    pool: RangeInclusiveView<u16>,
    i: int,
    j: int,
    port: u16,
)
    requires
        0 <= i < j < servers.len(),
        servers[i].state is None,
        servers[j].state is None,
        servers[i].config.game_port == Some(port),
        servers[j].config.game_port == Some(port),
        !used_after(servers, pool, i).contains(port),
    ensures
        plan(servers, pool)[i] == PortDecision::Assigned(port),
        plan(servers, pool)[j] == PortDecision::PinnedTaken(port),
{
    lemma_used_grows(servers, pool, i + 1, j, port);
}

/// Whether no server insists on a port of its own.
pub open spec fn none_pinned(servers: Seq<ServerView>) -> bool {
    forall|i: int| 0 <= i < servers.len() ==> (#[trigger] servers[i]).config.game_port is None
}

/// While the servers of a cluster in which none runs and none insists on a
/// port take their turns, the ports that are taken are the first of the
/// pool, one for each server that has had its turn.
pub proof fn lemma_fresh_ports_are_taken_in_order(
    servers: Seq<ServerView>,
    pool: RangeInclusiveView<u16>,
    k: int,
)
    requires
        none_running(servers),
        none_pinned(servers),
        !pool.exhausted,
        0 <= k <= servers.len(),
        pool.start + k - 1 <= pool.end,
    ensures
        forall|port: u16|
            used_after(servers, pool, k).contains(port) <==> pool.start <= port < pool.start + k,
    decreases k,
{
    if k == 0 {
        assert forall|port: u16| !ports_in_use(servers).contains(port) by {
            if ports_in_use(servers).contains(port) {
                let i = choose|i: int| runs_on(servers, i, port);
                assert(servers[i].state is None);
            }
        }
    } else {
        lemma_fresh_ports_are_taken_in_order(servers, pool, k - 1);
        let used = used_after(servers, pool, k - 1);
        assert(servers[k - 1].state is None);
        assert(servers[k - 1].config.game_port is None);
        lemma_free_port(pool, used);
        let next = (pool.start + k - 1) as u16;
        assert(pool_has(pool, next) && !used.contains(next));
        assert(free_port(pool, used) == Some(next)) by {
            let found = free_port(pool, used)->0;
            if found < next {
                assert(used.contains(found));
            }
            if next < found {
                assert(used.contains(next));
            }
        }
    }
}

/// In a cluster in which no server runs and none insists on a port, the
/// servers are assigned the ports of the pool from the first on, in the
/// cluster's order, as long as the pool lasts.
pub proof fn lemma_fresh_cluster_takes_first_ports(
    servers: Seq<ServerView>,
    pool: RangeInclusiveView<u16>,
    i: int,
)
    requires
        none_running(servers),
        none_pinned(servers),
        !pool.exhausted,
        0 <= i < servers.len(),
        pool.start + i <= pool.end,
    ensures
        plan(servers, pool)[i] == PortDecision::Assigned((pool.start + i) as u16),
{
    lemma_fresh_ports_are_taken_in_order(servers, pool, i);
    lemma_fresh_ports_are_taken_in_order(servers, pool, i + 1);
    let used = used_after(servers, pool, i);
    assert(servers[i].state is None);
    assert(servers[i].config.game_port is None);
    lemma_free_port(pool, used);
    let next = (pool.start + i) as u16;
    assert(!used.contains(next));
    assert(pool_has(pool, next));
    let found = free_port(pool, used)->0;
    if found < next {
        assert(used.contains(found));
    }
    if next < found {
        assert(used.contains(next));
    }
}

/// A server that is assigned a port runs on that port after the poll, if
/// its container came up and the engine says when it created it.
pub proof fn lemma_assigned_server_starts(
    servers: Seq<ServerView>,
    pool: RangeInclusiveView<u16>,
    starts: Seq<Option<StartReportView>>,
    i: int,
)
    requires
        0 <= i < servers.len(),
        plan(servers, pool)[i] is Assigned,
        start_at(starts, i) matches StartReportView::Inspected { report, .. }
            && report.created_at() is Some,
    ensures
        polled(servers, pool, starts)[i].state matches Some(running) && {
            &&& running.game_port == plan(servers, pool)[i]->Assigned_0
            &&& running.container_id == start_at(starts, i)->container_id
            &&& Some(running.start_time) == start_at(starts, i)->report.created_at()
        },
{
}

/// A server that the cluster did not hold comes out of a reload as it was
/// declared: it does not run if it was declared as not running.
pub proof fn lemma_new_server_waits(servers: Seq<ServerView>, declared: Seq<ServerView>, k: int)
    requires
        0 <= k < declared.len(),
        index_of(servers, declared[k].id) is None,
    ensures
        loaded(servers, declared)[k] == declared[k],
{
}

/// Each server that is left over is a server of the cluster, marked as old,
/// and the servers that are left over stand in the cluster's order.
pub proof fn lemma_leftover_is_part(servers: Seq<ServerView>, declared: Seq<ServerView>, i: int) -> (k:
    int)
    requires
        0 <= i < leftovers(servers, declared).len(),
    ensures
        0 <= k < servers.len(),
        is_leftover(servers[k], declared),
        leftovers(servers, declared)[i] == servers[k].marked_old(),
        forall|j: int|
            #![trigger leftovers(servers, declared)[j]]
            i < j < leftovers(servers, declared).len() ==> exists|m: int|
                k < m < servers.len() && leftovers(servers, declared)[j] == (#[trigger] servers[m]).marked_old(),
    decreases servers.len(),
{
    let init = servers.drop_last();
    let all = leftovers(servers, declared);
    if !is_leftover(servers.last(), declared) {
        let k = lemma_leftover_is_part(init, declared, i);
        assert forall|j: int| #![trigger all[j]] i < j < all.len() implies exists|m: int|
            k < m < servers.len() && all[j] == (#[trigger] servers[m]).marked_old() by {
            let m = choose|m: int|
                k < m < init.len() && leftovers(init, declared)[j] == (#[trigger] init[m]).marked_old();
            assert(all[j] == servers[m].marked_old());
        }
        k
    } else if i == leftovers(init, declared).len() {
        servers.len() - 1
    } else {
        let k = lemma_leftover_is_part(init, declared, i);
        assert forall|j: int| #![trigger all[j]] i < j < all.len() implies exists|m: int|
            k < m < servers.len() && all[j] == (#[trigger] servers[m]).marked_old() by {
            if j < leftovers(init, declared).len() {
                let m = choose|m: int|
                    k < m < init.len() && leftovers(init, declared)[j] == (#[trigger] init[m]).marked_old();
                assert(all[j] == servers[m].marked_old());
            } else {
                assert(all[j] == servers[servers.len() - 1].marked_old());
            }
        }
        k
    }
}

/// A server that runs and that the new declarations leave out is kept by
/// the reload: it still runs, under the same container, and is marked as old.
pub proof fn lemma_removed_server_is_kept(servers: Seq<ServerView>, declared: Seq<ServerView>, j: int) -> (k:
    int)
    requires
        0 <= j < servers.len(),
        is_leftover(servers[j], declared),
    ensures
        declared.len() <= k < loaded(servers, declared).len(),
        loaded(servers, declared)[k] == servers[j].marked_old(),
    decreases servers.len(),
{
    let init = servers.drop_last();
    if j == servers.len() - 1 {
        (declared.len() + leftovers(init, declared).len()) as int
    } else {
        let k = lemma_removed_server_is_kept(init, declared, j);
        assert(loaded(init, declared)[k] == leftovers(init, declared)[k - declared.len()]);
        k
    }
}

/// After a reload no two servers share an id, where that held of the
/// cluster and of the new servers before.
pub proof fn lemma_load_keeps_ids(servers: Seq<ServerView>, declared: Seq<ServerView>)
    requires
        ids_unique(servers),
        ids_unique(declared),
    ensures
        ids_unique(loaded(servers, declared)),
{
    let after = loaded(servers, declared);
    let n = declared.len() as int;
    assert forall|i: int, j: int| 0 <= i < j < after.len() implies (#[trigger] after[i]).id != (
    #[trigger] after[j]).id by {
        if j < n {
            assert(after[i] == adopted(declared[i], servers));
            assert(after[j] == adopted(declared[j], servers));
            assert(declared[i].id != declared[j].id);
        } else if i < n {
            assert(after[i] == adopted(declared[i], servers));
            assert(after[j] == leftovers(servers, declared)[j - n]);
            let m = lemma_leftover_is_part(servers, declared, j - n);
            lemma_position_finds(ids_of(declared), servers[m].id);
            assert(ids_of(declared)[i] != servers[m].id);
        } else {
            assert(after[i] == leftovers(servers, declared)[i - n]);
            assert(after[j] == leftovers(servers, declared)[j - n]);
            let k = lemma_leftover_is_part(servers, declared, i - n);
            let m = choose|m: int|
                k < m < servers.len() && leftovers(servers, declared)[j - n] == (
                #[trigger] servers[m]).marked_old();
            assert(servers[k].id != servers[m].id);
        }
    }
}

/// The servers that are kept when the old ones are dropped do not share an
/// id, where the servers of the cluster did not.
pub proof fn lemma_stop_old_keeps_ids(servers: Seq<ServerView>)
    requires
        ids_unique(servers),
    ensures
        ids_unique(current(servers)),
{
    let kept = current(servers);
    assert forall|i: int, j: int| 0 <= i < j < kept.len() implies (#[trigger] kept[i]).id != (
    #[trigger] kept[j]).id by {
        let k = lemma_current_is_part(servers, i);
        let m = choose|m: int| k < m < servers.len() && servers[m] == current(servers)[j];
        assert(servers[k].id != servers[m].id);
    }
}

/// The steps that change no more than the state of servers leave the ids
/// as they are.
pub proof fn lemma_steps_keep_ids(
    servers: Seq<ServerView>,
    reports: Seq<Option<InspectReportView>>,
    outcomes: Seq<StopOutcome>,
    pool: RangeInclusiveView<u16>,
    starts: Seq<Option<StartReportView>>,
)
    ensures
        ids_of(swept(servers, reports)) == ids_of(servers),
        ids_of(stopped_all(servers, outcomes)) == ids_of(servers),
        ids_of(polled(servers, pool, starts)) == ids_of(servers),
{
    assert(ids_of(swept(servers, reports)) =~= ids_of(servers));
    assert(ids_of(stopped_all(servers, outcomes)) =~= ids_of(servers));
    assert(ids_of(polled(servers, pool, starts)) =~= ids_of(servers));
}

/// Reading a restore file leaves the ids as they are.
pub proof fn lemma_restore_keeps_ids(
    servers: Seq<ServerView>,
    entries: Seq<SerializedView>,
    reports: Seq<Option<InspectReportView>>,
    k: int,
)
    ensures
        ids_of(restored(servers, entries, reports, k)) == ids_of(servers),
    decreases k,
{
    if 0 < k <= entries.len() {
        lemma_restore_keeps_ids(servers, entries, reports, k - 1);
        let before = restored(servers, entries, reports, k - 1);
        let after = restored(servers, entries, reports, k);
        if restore_outcome(before, entries[k - 1], report_at(reports, k - 1))
            == RestoreOutcome::Restored {
            lemma_position_finds(ids_of(before), entries[k - 1].name);
        }
        assert(ids_of(after) =~= ids_of(before));
    }
}

/// Where no two servers shared an id, and the ids are as they were, no two
/// servers share one now.
pub proof fn lemma_same_ids_are_unique(before: Seq<ServerView>, after: Seq<ServerView>)
    requires
        ids_of(before) == ids_of(after),
        ids_unique(before),
    ensures
        ids_unique(after),
{
    assert(ids_of(before).len() == before.len());
    assert(ids_of(after).len() == after.len());
    assert forall|i: int, j: int| 0 <= i < j < after.len() implies (#[trigger] after[i]).id != (
    #[trigger] after[j]).id by {
        assert(ids_of(after)[i] == ids_of(before)[i]);
        assert(ids_of(after)[j] == ids_of(before)[j]);
        assert(before[i].id != before[j].id);
    }
}

/// A reload keeps the game ports in order, where the new servers are
/// declared as not running and each may hold the port of the container
/// that it takes over.
pub proof fn lemma_load_keeps_ports(
    servers: Seq<ServerView>,
    declared: Seq<ServerView>,
    pool: RangeInclusiveView<u16>,
)
    requires
        ids_unique(servers),
        ids_unique(declared),
        none_running(declared),
        ports_valid(servers, pool),
        forall|k: int|
            0 <= k < declared.len() && adopted(#[trigger] declared[k], servers).state is Some
                ==> port_allowed(
                declared[k],
                pool,
                adopted(declared[k], servers).state->0.game_port,
            ),
    ensures
        ports_valid(loaded(servers, declared), pool),
{
    let after = loaded(servers, declared);
    let n = declared.len() as int;
    // each server that runs after the reload holds the state of a server
    // that ran before, and no two hold the state of the same one
    assert forall|i: int| 0 <= i < after.len() && (#[trigger] after[i]).state is Some implies {
        &&& 0 <= origin(servers, declared, i) < servers.len()
        &&& servers[origin(servers, declared, i)].state == after[i].state
        &&& port_allowed(after[i], pool, after[i].state->0.game_port)
    } by {
        lemma_origin(servers, declared, i);
        let k = origin(servers, declared, i);
        if i < n {
            assert(after[i] == adopted(declared[i], servers));
            assert(port_allowed(declared[i], pool, adopted(declared[i], servers).state->0.game_port));
        } else {
            let m = lemma_leftover_is_part(servers, declared, i - n);
            assert(after[i] == leftovers(servers, declared)[i - n]);
            assert(servers[m].state is Some);
            assert(port_allowed(servers[m], pool, servers[m].state->0.game_port));
        }
    }
    assert forall|i: int, j: int|
        0 <= i < j < after.len() && (#[trigger] after[i]).state is Some && (
        #[trigger] after[j]).state is Some implies after[i].state->0.game_port
        != after[j].state->0.game_port by {
        lemma_origin(servers, declared, i);
        lemma_origin(servers, declared, j);
        lemma_origins_differ(servers, declared, i, j);
        let a = origin(servers, declared, i);
        let b = origin(servers, declared, j);
        if a < b {
            assert(servers[a].state is Some && servers[b].state is Some);
        } else {
            assert(servers[b].state is Some && servers[a].state is Some);
        }
    }
}

/// The place, before a reload, of the server whose state the server at `i`
/// holds after it.
pub open spec fn origin(servers: Seq<ServerView>, declared: Seq<ServerView>, i: int) -> int {
    if i < declared.len() {
        index_of(servers, declared[i].id)->0
    } else {
        choose|k: int|
            0 <= k < servers.len() && is_leftover(servers[k], declared) && loaded(
                servers,
                declared,
            )[i] == servers[k].marked_old()
    }
}

/// A server that runs after a reload holds the state of the server at its
/// origin, which has the same id.
pub proof fn lemma_origin(servers: Seq<ServerView>, declared: Seq<ServerView>, i: int)
    requires
        none_running(declared),
        0 <= i < loaded(servers, declared).len(),
        loaded(servers, declared)[i].state is Some,
    ensures
        0 <= origin(servers, declared, i) < servers.len(),
        servers[origin(servers, declared, i)].state == loaded(servers, declared)[i].state,
        servers[origin(servers, declared, i)].id == loaded(servers, declared)[i].id,
        i >= declared.len() ==> is_leftover(servers[origin(servers, declared, i)], declared),
{
    let after = loaded(servers, declared);
    if i < declared.len() {
        assert(after[i] == adopted(declared[i], servers));
        assert(declared[i].state is None);
        lemma_position_finds(ids_of(servers), declared[i].id);
    } else {
        let k = lemma_leftover_is_part(servers, declared, i - declared.len());
        assert(after[i] == leftovers(servers, declared)[i - declared.len()]);
    }
}

/// Two servers that run after a reload have different origins.
pub proof fn lemma_origins_differ(servers: Seq<ServerView>, declared: Seq<ServerView>, i: int, j: int)
    requires
        ids_unique(servers),
        ids_unique(declared),
        none_running(declared),
        0 <= i < j < loaded(servers, declared).len(),
        loaded(servers, declared)[i].state is Some,
        loaded(servers, declared)[j].state is Some,
    ensures
        origin(servers, declared, i) != origin(servers, declared, j),
{
    let after = loaded(servers, declared);
    let n = declared.len() as int;
    lemma_origin(servers, declared, i);
    lemma_origin(servers, declared, j);
    let a = origin(servers, declared, i);
    let b = origin(servers, declared, j);
    if j < n {
        // two new servers: their ids differ
        assert(after[i] == adopted(declared[i], servers));
        assert(after[j] == adopted(declared[j], servers));
        assert(declared[i].id != declared[j].id);
    } else if i < n {
        // a new server and one that is left over: the new ones do not hold
        // the id of the one that is left over
        assert(after[i] == adopted(declared[i], servers));
        if a == b {
            assert(ids_of(declared)[i] == servers[b].id);
            lemma_first_exists(ids_of(declared), servers[b].id, i);
            lemma_position_finds(ids_of(declared), servers[b].id);
        }
    } else {
        // two that are left over: they stand at different places of the cluster
        let k = lemma_leftover_is_part(servers, declared, i - n);
        assert(after[i] == leftovers(servers, declared)[i - n]);
        assert(after[j] == leftovers(servers, declared)[j - n]);
        let m = choose|m: int|
            k < m < servers.len() && leftovers(servers, declared)[j - n] == (#[trigger] servers[m]).marked_old();
        assert(servers[k].id == after[i].id);
        assert(servers[m].id == after[j].id);
        assert(servers[k].id != servers[m].id);
        if a == b {
            assert(after[i].id == after[j].id);
        }
    }
}

/// A container that is gone is noticed by the liveness check: the server
/// does not run afterwards, so that the poll assigns it a port if one is
/// free, and starts it again.
pub proof fn lemma_lost_container_is_restarted(
    servers: Seq<ServerView>,
    reports: Seq<Option<InspectReportView>>,
    pool: RangeInclusiveView<u16>,
    i: int,
)
    requires
        0 <= i < servers.len(),
        servers[i].state is Some,
        has_stopped(report_at(reports, i)),
    ensures
        swept(servers, reports)[i].state is None,
        plan(swept(servers, reports), pool)[i] !is NotQueued,
{
}

/// A server whose scheduled restart has passed is named by the liveness
/// check; once it is stopped, the poll assigns it a port as it does for
/// any server that does not run.
pub proof fn lemma_restart_is_due(
    servers: Seq<ServerView>,
    reports: Seq<Option<InspectReportView>>,
    poll_time: Timestamp,
    i: int,
)
    requires
        0 <= i < servers.len(),
        is_due(servers[i], report_at(reports, i), poll_time),
    ensures
        due(servers, reports, poll_time, servers.len() as int).contains(i),
        swept(servers, reports)[i] == servers[i],
        swept(servers, reports)[i].stopped(StopOutcome::Stopped).state is None,
{
    lemma_due_lists(servers, reports, poll_time, servers.len() as int, i);
}

/// A server that runs and whose scheduled restart has not passed is left
/// alone: the liveness check does not name it, and the poll finds nothing
/// to start for it.
pub proof fn lemma_no_restart_before_schedule(
    servers: Seq<ServerView>,
    reports: Seq<Option<InspectReportView>>,
    poll_time: Timestamp,
    pool: RangeInclusiveView<u16>,
    i: int,
)
    requires
        0 <= i < servers.len(),
        servers[i].state is Some,
        !has_stopped(report_at(reports, i)),
        !is_due(servers[i], report_at(reports, i), poll_time),
    ensures
        !due(servers, reports, poll_time, servers.len() as int).contains(i),
        swept(servers, reports)[i] == servers[i],
        plan(swept(servers, reports), pool)[i] is NotQueued,
{
    lemma_due_lists(servers, reports, poll_time, servers.len() as int, i);
}

/// The cluster after one whole pass of the control loop: the liveness
/// check, the stops that were asked for, and the starts.
pub open spec fn pass(
    servers: Seq<ServerView>,
    reports: Seq<Option<InspectReportView>>,
    outcomes: Seq<StopOutcome>,
    pool: RangeInclusiveView<u16>,
    starts: Seq<Option<StartReportView>>,
) -> Seq<ServerView> {
    polled(stopped_all(swept(servers, reports), outcomes), pool, starts)
}

/// A whole pass keeps the game ports in order.
pub proof fn lemma_pass_keeps_ports(
    servers: Seq<ServerView>,
    reports: Seq<Option<InspectReportView>>,
    outcomes: Seq<StopOutcome>,
    pool: RangeInclusiveView<u16>,
    starts: Seq<Option<StartReportView>>,
)
    requires
        ports_valid(servers, pool),
    ensures
        ports_valid(pass(servers, reports, outcomes, pool, starts), pool),
{
    lemma_sweep_keeps_ports(servers, reports, pool);
    lemma_stop_keeps_ports(swept(servers, reports), outcomes, pool);
    lemma_poll_keeps_ports(stopped_all(swept(servers, reports), outcomes), pool, starts);
}

/// Whether the start report tells of a container that came up and of the
/// time of its creation.
pub open spec fn came_up(report: StartReportView) -> bool {
    report matches StartReportView::Inspected { report, .. } && report.created_at() is Some
}

/// A server whose container is gone runs again at the end of the same
/// pass, under a new container, if a port is assigned to it and the new
/// container comes up.
pub proof fn lemma_lost_container_runs_again(
    servers: Seq<ServerView>,
    reports: Seq<Option<InspectReportView>>,
    outcomes: Seq<StopOutcome>,
    pool: RangeInclusiveView<u16>,
    starts: Seq<Option<StartReportView>>,
    i: int,
)
    requires
        0 <= i < servers.len(),
        servers[i].state is Some,
        has_stopped(report_at(reports, i)),
        plan(stopped_all(swept(servers, reports), outcomes), pool)[i] is Assigned,
        came_up(start_at(starts, i)),
    ensures
        swept(servers, reports)[i].state is None,
        pass(servers, reports, outcomes, pool, starts)[i].state matches Some(running) && {
            &&& running.container_id == start_at(starts, i)->container_id
            &&& running.game_port == plan(
                stopped_all(swept(servers, reports), outcomes),
                pool,
            )[i]->Assigned_0
            &&& Some(running.start_time) == start_at(starts, i)->report.created_at()
        },
{
}

/// A server whose scheduled restart has passed is named by the liveness
/// check and, once its container is stopped, runs again at the end of the
/// same pass, if a port is assigned to it and the new container comes up.
pub proof fn lemma_scheduled_restart_runs_again(
    servers: Seq<ServerView>,
    reports: Seq<Option<InspectReportView>>,
    outcomes: Seq<StopOutcome>,
    pool: RangeInclusiveView<u16>,
    starts: Seq<Option<StartReportView>>,
    poll_time: Timestamp,
    i: int,
)
    requires
        0 <= i < servers.len(),
        is_due(servers[i], report_at(reports, i), poll_time),
        outcome_at(outcomes, i) == StopOutcome::Stopped,
        plan(stopped_all(swept(servers, reports), outcomes), pool)[i] is Assigned,
        came_up(start_at(starts, i)),
    ensures
        due(servers, reports, poll_time, servers.len() as int).contains(i),
        stopped_all(swept(servers, reports), outcomes)[i].state is None,
        pass(servers, reports, outcomes, pool, starts)[i].state matches Some(running) && {
            &&& running.container_id == start_at(starts, i)->container_id
            &&& Some(running.start_time) == start_at(starts, i)->report.created_at()
        },
{
    lemma_due_lists(servers, reports, poll_time, servers.len() as int, i);
}

/// A server that runs, whose container the engine finds running, and whose
/// scheduled restart has not passed, is the same after the pass as before.
pub proof fn lemma_healthy_server_is_left_alone(
    servers: Seq<ServerView>,
    reports: Seq<Option<InspectReportView>>,
    outcomes: Seq<StopOutcome>,
    pool: RangeInclusiveView<u16>,
    starts: Seq<Option<StartReportView>>,
    i: int,
)
    requires
        0 <= i < servers.len(),
        servers[i].state is Some,
        !has_stopped(report_at(reports, i)),
        outcome_at(outcomes, i) == StopOutcome::Refused,
    ensures
        pass(servers, reports, outcomes, pool, starts)[i] == servers[i],
{
}

/// The list of restarts holds just the places of the servers whose
/// scheduled restart has passed.
pub proof fn lemma_due_lists(
    servers: Seq<ServerView>,
    reports: Seq<Option<InspectReportView>>,
    poll_time: Timestamp,
    k: int,
    i: int,
)
    requires
        0 <= k <= servers.len(),
    ensures
        due(servers, reports, poll_time, k).contains(i) <==> 0 <= i < k && is_due(
            servers[i],
            report_at(reports, i),
            poll_time,
        ),
    decreases k,
{
    if k > 0 {
        lemma_due_lists(servers, reports, poll_time, k - 1, i);
        let before = due(servers, reports, poll_time, k - 1);
        if is_due(servers[k - 1], report_at(reports, k - 1), poll_time) {
            let now = before.push(k - 1);
            if before.contains(i) {
                let w = choose|w: int| 0 <= w < before.len() && before[w] == i;
                assert(now[w] == i);
            }
            if i == k - 1 {
                assert(now[now.len() - 1] == i);
            }
            if now.contains(i) {
                let w = choose|w: int| 0 <= w < now.len() && now[w] == i;
                if w < before.len() {
                    assert(before[w] == i);
                }
            }
        }
    }
}

/// What a restore file holds of a server that runs.
pub open spec fn entry_of(server: ServerView) -> SerializedView {
    SerializedView {
        name: server.id,
        container_id: server.state->0.container_id,
        game_port: server.state->0.game_port,
    }
}

/// Whether the entry tells of a running server that stands behind `k`.
pub open spec fn told_behind(servers: Seq<ServerView>, k: int, entry: SerializedView) -> bool {
    exists|j: int|
        k < j < servers.len() && (#[trigger] servers[j]).state is Some && entry == entry_of(
            servers[j],
        )
}

/// Each entry of a restore file tells of a server that runs, and the
/// entries stand in the cluster's order.
pub proof fn lemma_serialized_is_part(servers: Seq<ServerView>, m: int) -> (k: int)
    requires
        0 <= m < serialized(servers).len(),
    ensures
        0 <= k < servers.len(),
        servers[k].state is Some,
        serialized(servers)[m] == entry_of(servers[k]),
        forall|n: int|
            m < n < serialized(servers).len() ==> told_behind(
                servers,
                k,
                #[trigger] serialized(servers)[n],
            ),
    decreases servers.len(),
{
    let init = servers.drop_last();
    let all = serialized(servers);
    if servers.last().state is None {
        let k = lemma_serialized_is_part(init, m);
        assert forall|n: int| m < n < all.len() implies told_behind(servers, k, #[trigger] all[n]) by {
            assert(told_behind(init, k, serialized(init)[n]));
            let j = choose|j: int|
                k < j < init.len() && (#[trigger] init[j]).state is Some && serialized(init)[n]
                    == entry_of(init[j]);
            assert(servers[j] == init[j]);
        }
        k
    } else if m == serialized(init).len() {
        servers.len() - 1
    } else {
        let k = lemma_serialized_is_part(init, m);
        assert forall|n: int| m < n < all.len() implies told_behind(servers, k, #[trigger] all[n]) by {
            if n < serialized(init).len() {
                assert(told_behind(init, k, serialized(init)[n]));
                let j = choose|j: int|
                    k < j < init.len() && (#[trigger] init[j]).state is Some && serialized(
                        init,
                    )[n] == entry_of(init[j]);
                assert(servers[j] == init[j]);
            } else {
                assert(servers[servers.len() - 1].state is Some);
                assert(all[n] == entry_of(servers[servers.len() - 1]));
            }
        }
        k
    }
}

/// A restore file holds an entry for each server that runs.
pub proof fn lemma_running_is_serialized(servers: Seq<ServerView>, k: int) -> (m: int)
    requires
        0 <= k < servers.len(),
        servers[k].state is Some,
    ensures
        0 <= m < serialized(servers).len(),
        serialized(servers)[m] == entry_of(servers[k]),
    decreases servers.len(),
{
    let init = servers.drop_last();
    if k == servers.len() - 1 {
        serialized(init).len() as int
    } else {
        let m = lemma_running_is_serialized(init, k);
        assert(serialized(servers)[m] == serialized(init)[m]);
        m
    }
}

/// Where no two servers share an id, no two entries of the restore file
/// share a name.
pub proof fn lemma_serialized_names_differ(servers: Seq<ServerView>, m: int, n: int)
    requires
        ids_unique(servers),
        0 <= m < n < serialized(servers).len(),
    ensures
        serialized(servers)[m].name != serialized(servers)[n].name,
{
    let k = lemma_serialized_is_part(servers, m);
    assert(told_behind(servers, k, serialized(servers)[n]));
    let j = choose|j: int|
        k < j < servers.len() && (#[trigger] servers[j]).state is Some && serialized(servers)[n]
            == entry_of(servers[j]);
    assert(servers[k].id != servers[j].id);
}

/// Whether the engine says of each container that it runs, and when it was
/// created.
pub open spec fn all_alive(reports: Seq<Option<InspectReportView>>, n: int) -> bool {
    forall|k: int|
        0 <= k < n ==> !has_stopped(#[trigger] report_at(reports, k)) && report_at(
            reports,
            k,
        )->0.created_at() is Some
}

/// Whether the cluster holds a server for each entry.
pub open spec fn all_known(servers: Seq<ServerView>, entries: Seq<SerializedView>) -> bool {
    forall|k: int| 0 <= k < entries.len() ==> index_of(servers, (#[trigger] entries[k]).name) is Some
}

/// Whether no two entries share a name.
pub open spec fn names_differ(entries: Seq<SerializedView>) -> bool {
    forall|m: int, n: int|
        0 <= m < n < entries.len() ==> (#[trigger] entries[m]).name != (#[trigger] entries[n]).name
}

/// Whether one of the first `k` entries tells of the server at `t`.
pub open spec fn claimed_by(servers: Seq<ServerView>, entries: Seq<SerializedView>, k: int, t: int, m: int) -> bool {
    0 <= m < k && m < entries.len() && index_of(servers, entries[m].name) == Some(t)
}

/// The cluster after the first `k` entries of a restore file, where the
/// engine says that every container runs: a server that an entry names
/// runs under the entry's container on the entry's port, and every other
/// server is as it was.
pub proof fn lemma_restored_shape(
    servers: Seq<ServerView>,
    entries: Seq<SerializedView>,
    reports: Seq<Option<InspectReportView>>,
    k: int,
)
    requires
        0 <= k <= entries.len(),
        all_alive(reports, k),
        all_known(servers, entries),
        names_differ(entries),
    ensures
        restored(servers, entries, reports, k).len() == servers.len(),
        ids_of(restored(servers, entries, reports, k)) == ids_of(servers),
        forall|t: int, m: int|
            0 <= t < servers.len() && #[trigger] claimed_by(servers, entries, k, t, m) ==> {
                &&& restored(servers, entries, reports, k)[t].state matches Some(running)
                &&& running.container_id == entries[m].container_id
                &&& running.game_port == entries[m].game_port
            },
        forall|t: int|
            0 <= t < servers.len() && (forall|m: int| !claimed_by(servers, entries, k, t, m))
                ==> (#[trigger] restored(servers, entries, reports, k)[t]) == servers[t],
    decreases k,
{
    if k > 0 {
        lemma_restored_shape(servers, entries, reports, k - 1);
        let before = restored(servers, entries, reports, k - 1);
        let after = restored(servers, entries, reports, k);
        let entry = entries[k - 1];
        let report = report_at(reports, k - 1);
        assert(index_of(servers, entry.name) is Some);
        assert(index_of(before, entry.name) == index_of(servers, entry.name));
        let at = index_of(servers, entry.name)->0;
        lemma_position_finds(ids_of(servers), entry.name);
        assert(restore_outcome(before, entry, report) == RestoreOutcome::Restored);
        assert(ids_of(after) =~= ids_of(servers)) by {
            assert forall|t: int| 0 <= t < servers.len() implies ids_of(after)[t] == ids_of(
                servers,
            )[t] by {
                assert(ids_of(before)[t] == ids_of(servers)[t]);
            }
        }
        assert forall|t: int, m: int|
            0 <= t < servers.len() && #[trigger] claimed_by(servers, entries, k, t, m) implies {
            &&& after[t].state matches Some(running)
            &&& running.container_id == entries[m].container_id
            &&& running.game_port == entries[m].game_port
        } by {
            if m == k - 1 {
                assert(t == at);
            } else {
                assert(claimed_by(servers, entries, k - 1, t, m));
                if t == at {
                    // two entries would name the same server
                    lemma_position_finds(ids_of(servers), entries[m].name);
                    assert(entries[m].name == entries[k - 1].name);
                }
                assert(after[t] == before[t]);
            }
        }
        assert forall|t: int|
            0 <= t < servers.len() && (forall|m: int|
                !claimed_by(servers, entries, k, t, m)) implies (#[trigger] after[t])
            == servers[t] by {
            assert(!claimed_by(servers, entries, k, t, k - 1));
            assert(t != at);
            assert(after[t] == before[t]);
            let earlier = k - 1;
            assert forall|m: int| !#[trigger] claimed_by(servers, entries, earlier, t, m) by {
                assert(!claimed_by(servers, entries, k, t, m));
            }
            assert(before[t] == servers[t]);
        }
    }
}

/// A restore file that is written and read again gives back the servers
/// that ran: where the cluster that reads it holds every server that ran, none
/// of its servers runs yet, and the engine says that every container runs,
/// the entries that it would write are those that it has read.
pub proof fn lemma_restore_round_trip(
    source: Seq<ServerView>,
    target: Seq<ServerView>,
    reports: Seq<Option<InspectReportView>>,
    entry: SerializedView,
)
    requires
        ids_unique(source),
        ids_unique(target),
        none_running(target),
        all_known(target, serialized(source)),
        all_alive(reports, serialized(source).len() as int),
    ensures
        serialized(
            restored(target, serialized(source), reports, serialized(source).len() as int),
        ).contains(entry) <==> serialized(source).contains(entry),
{
    let entries = serialized(source);
    let n = entries.len() as int;
    let after = restored(target, entries, reports, n);
    assert(names_differ(entries)) by {
        assert forall|a: int, b: int| 0 <= a < b < entries.len() implies (#[trigger] entries[a]).name
            != (#[trigger] entries[b]).name by {
            lemma_serialized_names_differ(source, a, b);
        }
    }
    lemma_restored_shape(target, entries, reports, n);
    if entries.contains(entry) {
        let m = choose|m: int| 0 <= m < entries.len() && entries[m] == entry;
        assert(index_of(target, entries[m].name) is Some);
        let t = index_of(target, entry.name)->0;
        lemma_position_finds(ids_of(target), entry.name);
        assert(claimed_by(target, entries, n, t, m));
        assert(ids_of(after)[t] == ids_of(target)[t]);
        assert(entry_of(after[t]) == entry);
        let w = lemma_running_is_serialized(after, t);
        assert(serialized(after)[w] == entry);
    }
    if serialized(after).contains(entry) {
        let w = choose|w: int| 0 <= w < serialized(after).len() && serialized(after)[w] == entry;
        let t = lemma_serialized_is_part(after, w);
        assert(ids_of(after)[t] == ids_of(target)[t]);
        assert(target[t].state is None);
        if forall|m: int| !claimed_by(target, entries, n, t, m) {
            assert(after[t] == target[t]);
        }
        let m = choose|m: int| claimed_by(target, entries, n, t, m);
        lemma_position_finds(ids_of(target), entries[m].name);
        assert(entries[m] == entry);
    }
}

} // verus!
