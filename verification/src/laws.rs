//! What holds of migrations as a whole.

use crate::connector::admin_public_of;
use crate::connector::Error;
use crate::connector::ServersSetChangeSessionCreatorConnectorWithMigration;
use crate::decision::connections_action;
use crate::decision::fresh_id_of;
use crate::decision::master_of;
use crate::decision::migration_id_of;
use crate::decision::session_action;
use crate::decision::ConnectionsAction;
use crate::decision::SessionAction;
use crate::decision_laws::law_all_other_nodes_must_be_connected;
use crate::hash::H256;
use crate::node::lemma_order_is_total;
use crate::node::lemma_order_is_transitive;
use crate::node::NodeId;
use crate::node_set::is_least;
use crate::node_set::NodeSet;
use crate::session::next_start_step;
use crate::session::set_to_sign;
use crate::session::start_request;
use crate::session::KeyServerSetCall;
use crate::session::NewSession;
use crate::session::StartRequest;
use crate::session::StartStep;
use crate::snapshot::migration_model;
use crate::snapshot::SnapshotModel;
use crate::state::migration_state_of;
use crate::state::next_observation;
use crate::state::participates;
use crate::state::session_state_of;
use crate::state::AdminSession;
use crate::state::MigrationState;
use crate::state::Observation;
use crate::state::SessionProgress;
use crate::state::SessionState;
use crate::trigger::settled_session_state;
use crate::trigger::ConnectionTriggerWithMigration;
use crate::trigger::Maintain;
use crate::trigger::Maintenance;
use std::sync::Arc;
use vstd::prelude::*;

verus! {

/// The two snapshots tell of the same nodes and of the same migration, at whatever addresses.
pub open spec fn same_but_for_addresses(a: SnapshotModel, b: SnapshotModel) -> bool {
    &&& a.current_set.dom() == b.current_set.dom()
    &&& a.new_set.dom() == b.new_set.dom()
    &&& a.migration is Some <==> b.migration is Some
    &&& a.migration is Some ==> {
        &&& a.migration->0.id == b.migration->0.id
        &&& a.migration->0.set.dom() == b.migration->0.set.dom()
        &&& a.migration->0.master == b.migration->0.master
    }
}

/// The action starts a migration or its session.
pub open spec fn starts(action: Option<SessionAction>) -> bool {
    match action {
        Some(SessionAction::StartMigration(_)) => true,
        Some(SessionAction::Start) => true,
        _ => false,
    }
}

/// The actions are the same, but for the identifier of a migration that both start.
pub open spec fn same_but_for_fresh_id(a: Option<SessionAction>, b: Option<SessionAction>) -> bool {
    ||| a == b
    ||| a is Some && b is Some && a->0 is StartMigration && b->0 is StartMigration
}

/// A finite set that is not empty has a least member.
proof fn lemma_least_exists(nodes: Set<NodeId>)
    requires
        nodes.finite(),
        nodes.len() > 0,
    ensures
        exists|node: NodeId| is_least(nodes, node),
    decreases nodes.len(),
{
    let node = nodes.choose();
    let rest = nodes.remove(node);
    if rest.len() == 0 {
        assert forall|other: NodeId| nodes.contains(other) && other != node implies node.precedes(
            other,
        ) by {
            assert(rest.contains(other));
        }
        assert(is_least(nodes, node));
    } else {
        lemma_least_exists(rest);
        let least_of_rest = choose|n: NodeId| is_least(rest, n);
        lemma_order_is_total(node, least_of_rest);
        if node.precedes(least_of_rest) {
            assert forall|other: NodeId|
                nodes.contains(other) && other != node implies node.precedes(other) by {
                assert(rest.contains(other));
                if other != least_of_rest {
                    lemma_order_is_transitive(node, least_of_rest, other);
                }
            }
            assert(is_least(nodes, node));
        } else {
            assert forall|other: NodeId|
                nodes.contains(other) && other != least_of_rest implies least_of_rest.precedes(
                other,
            ) by {
                assert(other == node || rest.contains(other));
            }
            assert(is_least(nodes, least_of_rest));
        }
    }
}

/// A node that is neither in the current set nor in the migration set takes no part in the
/// migration: whatever it is connected to, it starts nothing and confirms nothing.
pub proof fn law_outsider_takes_no_part(
    node: NodeId,
    connected: Set<NodeId>,
    snapshot: SnapshotModel,
    observed: SessionState,
    fresh_id: H256,
)
    requires
        !participates(node, snapshot),
    ensures
        migration_state_of(node, snapshot) == MigrationState::Idle,
        session_action(
            node,
            connected,
            snapshot,
            migration_state_of(node, snapshot),
            settled_session_state(node, connected, snapshot, observed),
            fresh_id,
        ) is None,
        connections_action(
            migration_state_of(node, snapshot),
            settled_session_state(node, connected, snapshot, observed),
        ) == Some(ConnectionsAction::ConnectToCurrentSet),
{
}

/// As long as no migration has started, one is required of a current server exactly when the set
/// of nodes changes; once one has started, it is under way for each node that takes part.
pub proof fn law_migration_is_required_when_the_set_changes(node: NodeId, snapshot: SnapshotModel)
    requires
        participates(node, snapshot),
    ensures
        snapshot.migration is None ==> (migration_state_of(node, snapshot)
            == MigrationState::Required <==> snapshot.current_set.dom() != snapshot.new_set.dom()),
        snapshot.migration is None ==> (migration_state_of(node, snapshot) == MigrationState::Idle
            <==> snapshot.current_set.dom() == snapshot.new_set.dom()),
        migration_state_of(node, snapshot) == MigrationState::Started <==> snapshot.migration is Some,
{
}

/// Nothing that is decided depends on the addresses of the nodes.
pub proof fn law_addresses_do_not_matter(
    node: NodeId,
    connected: Set<NodeId>,
    a: SnapshotModel,
    b: SnapshotModel,
    session_state: SessionState,
    fresh_id: H256,
)
    requires
        same_but_for_addresses(a, b),
    ensures
        migration_state_of(node, a) == migration_state_of(node, b),
        master_of(a) == master_of(b),
        session_action(node, connected, a, migration_state_of(node, a), session_state, fresh_id)
            == session_action(
            node,
            connected,
            b,
            migration_state_of(node, b),
            session_state,
            fresh_id,
        ),
{
    assert(a.current_set.contains_key(node) == b.current_set.contains_key(node));
    if a.migration is Some {
        assert(a.migration->0.set.contains_key(node) == b.migration->0.set.contains_key(node));
    }
}

/// Before a migration has started, the master is a node that stays in the cluster wherever one
/// stays, and it comes before all others that stay; else it is the first of the new servers.
pub proof fn law_master_stays_in_the_cluster(snapshot: SnapshotModel)
    requires
        snapshot.current_set.dom().finite(),
        snapshot.new_set.dom().finite(),
        snapshot.migration is None,
    ensures
        ({
            let staying = snapshot.current_set.dom().intersect(snapshot.new_set.dom());
            &&& staying != Set::<NodeId>::empty() ==> master_of(snapshot) is Some && is_least(
                staying,
                master_of(snapshot)->0,
            )
            &&& staying == Set::<NodeId>::empty() && snapshot.new_set.dom()
                != Set::<NodeId>::empty() ==> master_of(snapshot) is Some && is_least(
                snapshot.new_set.dom(),
                master_of(snapshot)->0,
            )
        }),
{
    let staying = snapshot.current_set.dom().intersect(snapshot.new_set.dom());
    if staying != Set::<NodeId>::empty() {
        lemma_nonempty(staying);
        lemma_least_exists(staying);
    } else {
        assert(forall|n: NodeId| !staying.contains(n));
        if snapshot.new_set.dom() != Set::<NodeId>::empty() {
            lemma_nonempty(snapshot.new_set.dom());
            lemma_least_exists(snapshot.new_set.dom());
        }
    }
}

/// A finite set other than the empty one has members.
proof fn lemma_nonempty(nodes: Set<NodeId>)
    requires
        nodes.finite(),
        nodes != Set::<NodeId>::empty(),
    ensures
        nodes.len() > 0,
{
    if forall|n: NodeId| !nodes.contains(n) {
        assert(nodes =~= Set::<NodeId>::empty());
    }
    let n = choose|n: NodeId| nodes.contains(n);
    assert(nodes.contains(n));
    assert(nodes.len() == nodes.remove(n).len() + 1);
}

/// There is no master only where no migration has started and the cluster shall have no servers.
pub proof fn law_master_is_missing_only_for_an_empty_set(snapshot: SnapshotModel)
    requires
        snapshot.current_set.dom().finite(),
        snapshot.new_set.dom().finite(),
    ensures
        master_of(snapshot) is None <==> snapshot.migration is None && snapshot.new_set.dom()
            == Set::<NodeId>::empty(),
{
    if snapshot.migration is None {
        if snapshot.new_set.dom() == Set::<NodeId>::empty() {
            let staying = snapshot.current_set.dom().intersect(snapshot.new_set.dom());
            assert(forall|n: NodeId| !snapshot.new_set.dom().contains(n));
            assert(forall|n: NodeId| !staying.contains(n));
        } else {
            law_master_stays_in_the_cluster(snapshot);
        }
    }
}

/// Of all nodes that see the same snapshot at most one starts anything: two that do are the same.
pub proof fn law_one_node_leads(
    a: NodeId,
    b: NodeId,
    connected_a: Set<NodeId>,
    connected_b: Set<NodeId>,
    snapshot: SnapshotModel,
    session_a: SessionState,
    session_b: SessionState,
    fresh_a: H256,
    fresh_b: H256,
)
    requires
        starts(
            session_action(
                a,
                connected_a,
                snapshot,
                migration_state_of(a, snapshot),
                session_a,
                fresh_a,
            ),
        ),
        starts(
            session_action(
                b,
                connected_b,
                snapshot,
                migration_state_of(b, snapshot),
                session_b,
                fresh_b,
            ),
        ),
    ensures
        a == b,
{
}

/// A session is started only by the master of a migration that has started, only while there is
/// no session, and only where that node is connected to all others of both sets.
pub proof fn law_session_starts_when_all_are_connected(
    node: NodeId,
    connected: Set<NodeId>,
    snapshot: SnapshotModel,
    session_state: SessionState,
    fresh_id: H256,
)
    ensures
        session_action(
            node,
            connected,
            snapshot,
            migration_state_of(node, snapshot),
            session_state,
            fresh_id,
        ) == Some(SessionAction::Start) <==> {
            &&& snapshot.migration is Some
            &&& snapshot.current_set.contains_key(node)
                || snapshot.migration->0.set.contains_key(node)
            &&& session_state is Idle
            &&& snapshot.migration->0.master == node
            &&& snapshot.current_set.dom().remove(node).subset_of(connected)
            &&& snapshot.migration->0.set.dom().remove(node).subset_of(connected)
        },
{
    law_all_other_nodes_must_be_connected(node, snapshot.current_set.dom(), connected);
    if snapshot.migration is Some {
        law_all_other_nodes_must_be_connected(
            node,
            snapshot.migration->0.set.dom(),
            connected,
        );
    }
}

/// Every other node of both sets is needed to start the session: a node that starts it does so no
/// more once the connection to any of them is missing.
pub proof fn law_missing_connection_stops_the_start(
    node: NodeId,
    connected: Set<NodeId>,
    missing: NodeId,
    snapshot: SnapshotModel,
    session_state: SessionState,
    fresh_id: H256,
)
    requires
        missing != node,
        snapshot.migration is Some,
        snapshot.current_set.contains_key(missing) || snapshot.migration->0.set.contains_key(
            missing,
        ),
    ensures
        session_action(
            node,
            connected.remove(missing),
            snapshot,
            migration_state_of(node, snapshot),
            session_state,
            fresh_id,
        ) != Some(SessionAction::Start),
{
    assert(!connected.remove(missing).contains(missing));
}

/// A node that starts the session goes on starting it when it is connected to more nodes.
pub proof fn law_more_connections_keep_the_start(
    node: NodeId,
    connected: Set<NodeId>,
    more: Set<NodeId>,
    snapshot: SnapshotModel,
    session_state: SessionState,
    fresh_id: H256,
)
    requires
        connected.subset_of(more),
        session_action(
            node,
            connected,
            snapshot,
            migration_state_of(node, snapshot),
            session_state,
            fresh_id,
        ) == Some(SessionAction::Start),
    ensures
        session_action(
            node,
            more,
            snapshot,
            migration_state_of(node, snapshot),
            session_state,
            fresh_id,
        ) == Some(SessionAction::Start),
{
}

/// The session that a master starts is admitted by every node that knows of the same migration,
/// however late it learned of it: its connector, asked with what the start request holds, names
/// that master.
pub proof fn law_started_session_is_admitted<S, T>(
    master: ConnectionTriggerWithMigration<S>,
    held: Option<Arc<AdminSession<S>>>,
    progress: SessionProgress,
    done: Maintenance,
    other: ConnectionTriggerWithMigration<T>,
)
    requires
        master.decided(held, progress, done),
        master.session_action == Some(SessionAction::Start),
        other.connector_is_current(),
        other.snapshot@.migration == master.snapshot@.migration,
    ensures
        admin_public_of(
            migration_model(other.session.connector.migration),
            Some(start_request(master.snapshot@).migration_id),
            start_request(master.snapshot@).migration_set,
        ) == Ok::<NodeId, Error>(master.self_node_id),
{
}

/// A trigger answers for the migration that it learned of last: asked with the identifier of that
/// migration and the nodes that it leads to, its connector names its master, and asked with
/// anything else, or without a migration, it denies access.
pub proof fn law_connector_answers_for_the_active_migration<S>(
    trigger: ConnectionTriggerWithMigration<S>,
    migration_id: Option<H256>,
    new_server_set: Set<NodeId>,
)
    requires
        trigger.connector_is_current(),
    ensures
        admin_public_of(
            migration_model(trigger.session.connector.migration),
            migration_id,
            new_server_set,
        ) == (match trigger.snapshot@.migration {
            Some(migration) => if migration_id == Some(migration.id) && new_server_set
                == migration.set.dom() {
                Ok::<NodeId, Error>(migration.master)
            } else {
                Err(Error::AccessDenied)
            },
            None => Err(Error::AccessDenied),
        }),
{
}

/// Whoever is named as administrator of a migration leads it; and where no migration has
/// started, where none is asked for, where it is another one, or where the set of nodes is
/// another one, the answer is that access is denied.
pub proof fn law_only_the_master_is_admitted(
    snapshot: SnapshotModel,
    migration_id: Option<H256>,
    new_server_set: Set<NodeId>,
)
    ensures
        admin_public_of(snapshot.migration, migration_id, new_server_set) is Ok ==> master_of(
            snapshot,
        ) == Some(admin_public_of(snapshot.migration, migration_id, new_server_set)->Ok_0),
        snapshot.migration is None || migration_id is None || migration_id->0
            != snapshot.migration->0.id || new_server_set != snapshot.migration->0.set.dom()
            <==> admin_public_of(snapshot.migration, migration_id, new_server_set)
            == Err::<NodeId, Error>(Error::AccessDenied),
{
}

/// Only the identifier of a new migration depends on chance.
pub proof fn law_chance_picks_the_identifier_only(
    node: NodeId,
    connected: Set<NodeId>,
    snapshot: SnapshotModel,
    migration_state: MigrationState,
    session_state: SessionState,
    id_1: H256,
    id_2: H256,
)
    ensures
        same_but_for_fresh_id(
            session_action(node, connected, snapshot, migration_state, session_state, id_1),
            session_action(node, connected, snapshot, migration_state, session_state, id_2),
        ),
{
}

/// Maintenance never leaves a retry behind, and it leaves the trigger well formed.
pub proof fn law_maintenance_settles<S>(
    trigger: ConnectionTriggerWithMigration<S>,
    held: Option<Arc<AdminSession<S>>>,
    progress: SessionProgress,
    done: Maintenance,
)
    requires
        trigger.decided(held, progress, done),
    ensures
        trigger.session_action != Some(SessionAction::DropAndRetry),
        trigger.well_formed(),
{
}

/// What maintenance decides is determined by the node, the servers, the connections and the
/// session, but for the identifier of a new migration.
pub proof fn law_maintenance_is_determined<S>(
    a: ConnectionTriggerWithMigration<S>,
    b: ConnectionTriggerWithMigration<S>,
    held: Option<Arc<AdminSession<S>>>,
    progress: SessionProgress,
    done_a: Maintenance,
    done_b: Maintenance,
)
    requires
        a.self_node_id == b.self_node_id,
        a.snapshot@ == b.snapshot@,
        a.connected@ == b.connected@,
        a.decided(held, progress, done_a),
        b.decided(held, progress, done_b),
    ensures
        same_but_for_fresh_id(a.session_action, b.session_action),
        a.connections_action == b.connections_action,
        done_a.maintain == done_b.maintain,
        done_a.suspicious == done_b.suspicious,
        a.session.connector.session == b.session.connector.session,
        done_a.call is Some <==> done_b.call is Some,
{
}

/// A connection that is closed again leaves the connected nodes as they were, and so the
/// decisions too.
pub proof fn law_closing_undoes_establishing<S>(
    before: ConnectionTriggerWithMigration<S>,
    after: ConnectionTriggerWithMigration<S>,
    node: NodeId,
    held: Option<Arc<AdminSession<S>>>,
    progress: SessionProgress,
    done_before: Maintenance,
    done_after: Maintenance,
)
    requires
        !before.connected@.contains(node),
        before.decided(held, progress, done_before),
        after.self_node_id == before.self_node_id,
        after.snapshot == before.snapshot,
        after.connected@ == before.connected@.insert(node).remove(node),
        after.decided(held, progress, done_after),
    ensures
        after.connected@ == before.connected@,
        same_but_for_fresh_id(after.session_action, before.session_action),
        after.connections_action == before.connections_action,
        done_after.maintain == done_before.maintain,
{
    assert(after.connected@ =~= before.connected@);
    law_maintenance_is_determined(before, after, held, progress, done_before, done_after);
}

/// A session that is obsolete does not count: it is forgotten, and the actions and the call are
/// those of maintenance without a session, but for the identifier of a new migration.
pub proof fn law_obsolete_session_does_not_count<S>(
    a: ConnectionTriggerWithMigration<S>,
    b: ConnectionTriggerWithMigration<S>,
    held: Option<Arc<AdminSession<S>>>,
    progress: SessionProgress,
    done_a: Maintenance,
    done_b: Maintenance,
)
    requires
        a.self_node_id == b.self_node_id,
        a.snapshot@ == b.snapshot@,
        a.connected@ == b.connected@,
        a.decided(held, progress, done_a),
        done_a.suspicious is Some,
        b.decided(None, progress, done_b),
    ensures
        a.session.connector.session is None,
        same_but_for_fresh_id(a.session_action, b.session_action),
        a.connections_action == b.connections_action,
        done_a.maintain == done_b.maintain,
        done_a.call is Some <==> done_b.call is Some,
        done_b.suspicious is None,
{
}

/// Connections are left alone exactly while the session of the started migration runs.
pub proof fn law_connections_rest_while_the_session_runs<S>(
    trigger: ConnectionTriggerWithMigration<S>,
    held: Option<Arc<AdminSession<S>>>,
    progress: SessionProgress,
    done: Maintenance,
)
    requires
        trigger.decided(held, progress, done),
    ensures
        trigger.connections_action is None <==> {
            &&& migration_state_of(trigger.self_node_id, trigger.snapshot@)
                == MigrationState::Started
            &&& session_state_of(held, progress) is Active
            &&& migration_id_of(session_state_of(held, progress)->Active_0)
                == trigger.snapshot@.migration->0.id
        },
        trigger.connections_action is None ==> trigger.session_action is None && done.maintain is None
            && done.call is None && trigger.session.connector.session == held,
{
}

/// Maintenance leaves the connector the session that it held where that is none that changes the
/// set of servers, or where it is that of the started migration and still runs. Any other is
/// forgotten.
pub proof fn law_only_the_running_session_is_kept<S>(
    trigger: ConnectionTriggerWithMigration<S>,
    held: Option<Arc<AdminSession<S>>>,
    progress: SessionProgress,
    done: Maintenance,
)
    requires
        trigger.decided(held, progress, done),
    ensures
        ({
            let observed = session_state_of(held, progress);
            let kept = observed is Idle || migration_state_of(
                trigger.self_node_id,
                trigger.snapshot@,
            ) == MigrationState::Started && observed is Active && migration_id_of(
                observed->Active_0,
            ) == trigger.snapshot@.migration->0.id;
            trigger.session.connector.session == if kept {
                held
            } else {
                None
            }
        }),
{
}

/// With no migration to do, maintenance leaves no session that changes the set of servers, asks
/// for no call, and keeps the node connected to the current set.
pub proof fn law_idle_node_is_left_without_a_session<S>(
    trigger: ConnectionTriggerWithMigration<S>,
    held: Option<Arc<AdminSession<S>>>,
    progress: SessionProgress,
    done: Maintenance,
)
    requires
        trigger.decided(held, progress, done),
        migration_state_of(trigger.self_node_id, trigger.snapshot@) == MigrationState::Idle,
    ensures
        done.maintain == Some(Maintain::Connections),
        done.call is None,
        trigger.session_action is None,
        trigger.connections_action == Some(ConnectionsAction::ConnectToCurrentSet),
        forall|later: SessionProgress|
            session_state_of(trigger.session.connector.session, later) == SessionState::Idle,
{
}

/// Of two sessions that are stored the last counts, and the migration stays as it is.
pub proof fn law_last_stored_session_counts<S>(
    connector: ServersSetChangeSessionCreatorConnectorWithMigration<S>,
    first: Arc<AdminSession<S>>,
    last: Arc<AdminSession<S>>,
)
    ensures
        connector.storing(first).storing(last) == connector.storing(last),
        connector.storing(last).session == Some(last),
        connector.storing(last).migration == connector.migration,
{
}

/// The session that was stored last is the one that the next maintenance acts on: the actions
/// are those that its migration and its progress call for.
pub proof fn law_stored_session_is_acted_on<S>(
    before: ConnectionTriggerWithMigration<S>,
    connector: ServersSetChangeSessionCreatorConnectorWithMigration<S>,
    session: Arc<AdminSession<S>>,
    progress: SessionProgress,
    after: ConnectionTriggerWithMigration<S>,
    done: Maintenance,
)
    requires
        before.session.connector == connector.storing(session),
        after.decided(before.session.connector.session, progress, done),
    ensures
        ({
            let migration_state = migration_state_of(after.self_node_id, after.snapshot@);
            let session_state = settled_session_state(
                after.self_node_id,
                after.connected@,
                after.snapshot@,
                session_state_of(Some(session), progress),
            );
            &&& after.session_action == session_action(
                after.self_node_id,
                after.connected@,
                after.snapshot@,
                migration_state,
                session_state,
                fresh_id_of(after.session_action),
            )
            &&& after.connections_action == connections_action(migration_state, session_state)
            &&& after.session.connector.session is None || after.session.connector.session == Some(
                session,
            )
        }),
{
}

/// A session is waited for only once it has said that it is finished; and what is learned of it
/// is that it runs where it has not, and else whether it succeeded.
pub proof fn law_only_a_finished_session_is_waited_for(
    step: Observation,
    answer: bool,
    finished: bool,
    succeeded: bool,
)
    ensures
        next_observation(step, answer) == Observation::AskOutcome <==> step
            == Observation::AskFinished && answer,
        next_observation(next_observation(Observation::AskFinished, finished), succeeded)
            == Observation::Known(
            if !finished {
                SessionProgress::Running
            } else if succeeded {
                SessionProgress::Succeeded
            } else {
                SessionProgress::Failed
            },
        ),
{
}

/// A migration is confirmed exactly when its own session has finished, by the nodes that it
/// leads to; and with its own identifier.
pub proof fn law_confirmation_follows_success<S>(
    trigger: ConnectionTriggerWithMigration<S>,
    held: Option<Arc<AdminSession<S>>>,
    progress: SessionProgress,
    done: Maintenance,
)
    requires
        trigger.decided(held, progress, done),
    ensures
        done.call is Some && done.call->0 is ConfirmMigration <==> {
            &&& trigger.snapshot@.migration is Some
            &&& trigger.snapshot@.migration->0.set.contains_key(trigger.self_node_id)
            &&& session_state_of(held, progress) is Finished
            &&& migration_id_of(session_state_of(held, progress)->Finished_0)
                == trigger.snapshot@.migration->0.id
        },
        done.call is Some && done.call->0 is ConfirmMigration ==> done.call == Some(
            KeyServerSetCall::ConfirmMigration(trigger.snapshot@.migration->0.id),
        ) && trigger.session.connector.session is None,
{
}

/// A migration is started exactly when one is required and this node is the master.
pub proof fn law_master_starts_a_required_migration<S>(
    trigger: ConnectionTriggerWithMigration<S>,
    held: Option<Arc<AdminSession<S>>>,
    progress: SessionProgress,
    done: Maintenance,
)
    requires
        trigger.decided(held, progress, done),
    ensures
        done.call is Some && done.call->0 is StartMigration <==> migration_state_of(
            trigger.self_node_id,
            trigger.snapshot@,
        ) == MigrationState::Required && master_of(trigger.snapshot@) == Some(
            trigger.self_node_id,
        ),
{
}

/// Maintenance reports nothing exactly when the connections are left alone; and a session that
/// is to be started is never reported without connections to maintain.
pub proof fn law_report_covers_the_actions<S>(
    trigger: ConnectionTriggerWithMigration<S>,
    held: Option<Arc<AdminSession<S>>>,
    progress: SessionProgress,
    done: Maintenance,
)
    requires
        trigger.decided(held, progress, done),
    ensures
        done.maintain is None <==> trigger.connections_action is None,
        done.maintain == Some(Maintain::SessionAndConnections) <==> trigger.session_action == Some(
            SessionAction::Start,
        ),
        done.maintain != Some(Maintain::Session),
{
}

/// A session is created only with a signature of both sets, each in its place; signing that has
/// failed leads to no session.
pub proof fn law_session_needs_both_signatures<G, E>(
    request: StartRequest,
    current: Result<G, E>,
    migration: Result<G, E>,
)
    ensures
        ({
            let end = next_start_step(
                next_start_step(StartStep::SignCurrentSet(request), current),
                migration,
            );
            match (current, migration) {
                (Ok(current), Ok(migration)) => end == StartStep::<G, E>::CreateSession(
                    NewSession {
                        migration_id: request.migration_id,
                        migration_set: request.migration_set,
                        current_set_signature: current,
                        migration_set_signature: migration,
                    },
                ),
                (Err(error), _) => end == StartStep::<G, E>::Failed(error),
                (Ok(_), Err(error)) => end == StartStep::<G, E>::Failed(error),
            }
        }),
{
}

/// Where each set that has to be signed is handed to `sign`, the session is created with the
/// signature of the current set and that of the migration set, each in its place; nothing is left
/// to sign then. Where `sign` fails, it is on the first set that it fails on that the start ends.
pub proof fn law_session_carries_the_signatures_of_its_sets<G, E>(
    request: StartRequest,
    sign: spec_fn(NodeSet) -> Result<G, E>,
)
    ensures
        ({
            let first = StartStep::<G, E>::SignCurrentSet(request);
            let second = next_start_step(first, sign(set_to_sign(first)->0));
            let end = next_start_step(second, sign(set_to_sign(second)->0));
            &&& set_to_sign(first) == Some(request.current_set)
            &&& match sign(request.current_set) {
                Ok(current) => {
                    &&& set_to_sign(second) == Some(request.migration_set)
                    &&& set_to_sign(end) is None
                    &&& match sign(request.migration_set) {
                        Ok(migration) => end == StartStep::<G, E>::CreateSession(
                            NewSession {
                                migration_id: request.migration_id,
                                migration_set: request.migration_set,
                                current_set_signature: current,
                                migration_set_signature: migration,
                            },
                        ),
                        Err(error) => end == StartStep::<G, E>::Failed(error),
                    }
                },
                Err(error) => {
                    &&& second == StartStep::<G, E>::Failed(error)
                    &&& set_to_sign(second) is None
                },
            }
        }),
{
}

} // verus!
