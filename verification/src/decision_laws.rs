//! When each decision is taken, in terms of the servers, the connections and the session.

use crate::connector::admin_public_of;
use crate::decision::connected_to_all;
use crate::decision::connections_action;
use crate::decision::fresh_id_of;
use crate::decision::master_of;
use crate::decision::migration_id_of;
use crate::decision::session_action;
use crate::decision::session_decidable;
use crate::decision::ConnectionsAction;
use crate::decision::SessionAction;
use crate::hash::H256;
use crate::laws::law_master_is_missing_only_for_an_empty_set;
use crate::laws::law_master_stays_in_the_cluster;
use crate::node::lemma_order_is_asymmetric;
use crate::node::NodeId;
use crate::node_set::is_least;
use crate::session::forgets_session;
use crate::session::next_start_step;
use crate::session::processed;
use crate::session::set_to_sign;
use crate::session::start_request;
use crate::session::KeyServerSetCall;
use crate::session::NewSession;
use crate::session::StartRequest;
use crate::session::StartStep;
use crate::snapshot::MigrationModel;
use crate::snapshot::SnapshotModel;
use crate::state::migration_state_of;
use crate::state::participates;
use crate::state::AdminSession;
use crate::state::MigrationState;
use crate::state::SessionProgress;
use crate::state::SessionState;
use crate::trigger::ConnectionTriggerWithMigration;
use crate::trigger::Maintain;
use crate::trigger::Maintenance;
use std::sync::Arc;
use vstd::prelude::*;

verus! {

/// A node is connected to all of a set exactly when the set without that node is contained in
/// the nodes that it is connected to.
pub proof fn law_all_other_nodes_must_be_connected(
    node: NodeId,
    nodes: Set<NodeId>,
    connected: Set<NodeId>,
)
    ensures
        connected_to_all(node, nodes, connected) <==> nodes.remove(node).subset_of(connected),
{
    if connected_to_all(node, nodes, connected) {
        assert forall|n: NodeId| nodes.remove(node).contains(n) implies connected.contains(n) by {
            assert(nodes.contains(n) && n != node);
        }
    }
    if nodes.remove(node).subset_of(connected) {
        assert forall|n: NodeId| nodes.contains(n) && n != node implies connected.contains(n) by {
            assert(nodes.remove(node).contains(n));
        }
    }
}

/// Every current server takes part, whether it stays or is to be removed, and so does every node
/// that a started migration leads to; nobody else does. A migration is under way for them once it
/// has started. Before that, one is required of every current server as soon as some node is in
/// one of the current and the new set only.
pub proof fn law_migration_state_goes_by_membership(node: NodeId, snapshot: SnapshotModel)
    ensures
        ({
            let is_current = snapshot.current_set.dom().contains(node);
            let is_next = snapshot.migration is Some && snapshot.migration->0.set.dom().contains(
                node,
            );
            let differs = exists|n: NodeId|
                snapshot.current_set.dom().contains(n) != snapshot.new_set.dom().contains(n);
            &&& participates(node, snapshot) <==> is_current || is_next
            &&& migration_state_of(node, snapshot) == MigrationState::Started
                <==> snapshot.migration is Some && (is_current || is_next)
            &&& migration_state_of(node, snapshot) == MigrationState::Required
                <==> snapshot.migration is None && is_current && differs
            &&& migration_state_of(node, snapshot) == MigrationState::Idle <==> !is_current
                && !is_next || snapshot.migration is None && !differs
        }),
{
    let current = snapshot.current_set.dom();
    let new = snapshot.new_set.dom();
    if forall|n: NodeId| current.contains(n) == new.contains(n) {
        assert(current =~= new);
    }
}

/// The master of a started migration is the one that the migration names. Before that it is the
/// node that precedes all others of those in both sets or, where no node is in both, of those in
/// the new set.
pub proof fn law_master_is_the_first_candidate(snapshot: SnapshotModel, node: NodeId)
    requires
        snapshot.current_set.dom().finite(),
        snapshot.new_set.dom().finite(),
    ensures
        snapshot.migration is Some ==> master_of(snapshot) == Some(snapshot.migration->0.master),
        snapshot.migration is None ==> {
            let current = snapshot.current_set.dom();
            let new = snapshot.new_set.dom();
            let some_stay = exists|n: NodeId| current.contains(n) && new.contains(n);
            master_of(snapshot) == Some(node) <==> {
                &&& new.contains(node)
                &&& some_stay ==> current.contains(node)
                &&& forall|other: NodeId|
                    other != node && new.contains(other) && (some_stay ==> current.contains(other))
                        ==> node.precedes(other)
            }
        },
{
    if snapshot.migration is None {
        let current = snapshot.current_set.dom();
        let new = snapshot.new_set.dom();
        let staying = current.intersect(new);
        let some_stay = exists|n: NodeId| current.contains(n) && new.contains(n);
        law_master_stays_in_the_cluster(snapshot);
        law_master_is_missing_only_for_an_empty_set(snapshot);
        if some_stay {
            let n = choose|n: NodeId| current.contains(n) && new.contains(n);
            assert(staying.contains(n));
        } else {
            assert(staying =~= Set::<NodeId>::empty());
        }
        let candidates = if some_stay {
            staying
        } else {
            new
        };
        assert(forall|n: NodeId|
            candidates.contains(n) <==> new.contains(n) && (some_stay ==> current.contains(n)));
        if master_of(snapshot) is Some {
            let master = master_of(snapshot)->0;
            assert(is_least(candidates, master)) by {
                if new == Set::<NodeId>::empty() {
                    assert(master_of(snapshot) is None);
                }
            }
            if candidates.contains(node) && node != master {
                lemma_order_is_asymmetric(master, node);
            }
        } else {
            assert(!new.contains(node));
        }
    }
}

/// A session that names a migration belongs to exactly that migration; one that names none
/// belongs to the migration whose identifier is zero in every byte.
pub proof fn law_session_belongs_to_the_migration_that_it_names(id: H256, i: int)
    ensures
        migration_id_of(Some(id)) == id,
        0 <= i < 32 ==> migration_id_of(None).bytes[i] == 0,
        fresh_id_of(Some(SessionAction::StartMigration(id))) == id,
{
}

/// Connections are left alone while a session is active, whatever the migration does. Otherwise,
/// whether there is no session or one that has finished or failed, a node without a migration
/// connects to the current set, and one with a migration that is required or under way connects
/// to the current and the migration set.
pub proof fn law_connections_go_by_the_migration(
    migration_state: MigrationState,
    session_state: SessionState,
    id: Option<H256>,
)
    ensures
        connections_action(migration_state, SessionState::Active(id)) is None,
        session_state !is Active ==> connections_action(MigrationState::Idle, session_state)
            == Some(ConnectionsAction::ConnectToCurrentSet),
        session_state !is Active ==> connections_action(MigrationState::Required, session_state)
            == Some(ConnectionsAction::ConnectToCurrentAndMigrationSet),
        session_state !is Active ==> connections_action(MigrationState::Started, session_state)
            == Some(ConnectionsAction::ConnectToCurrentAndMigrationSet),
{
}

/// Without a session, the master starts a required migration with the fresh identifier, and the
/// session of a started one as soon as every other node of both sets is connected. Nothing else
/// is ever done without a session.
pub proof fn law_action_without_a_session(
    node: NodeId,
    connected: Set<NodeId>,
    snapshot: SnapshotModel,
    fresh_id: H256,
)
    ensures
        session_action(
            node,
            connected,
            snapshot,
            MigrationState::Idle,
            SessionState::Idle,
            fresh_id,
        ) is None,
        session_action(
            node,
            connected,
            snapshot,
            MigrationState::Required,
            SessionState::Idle,
            fresh_id,
        ) == (if master_of(snapshot) == Some(node) {
            Some(SessionAction::StartMigration(fresh_id))
        } else {
            None
        }),
        !snapshot.current_set.dom().remove(node).subset_of(connected) ==> session_action(
            node,
            connected,
            snapshot,
            MigrationState::Started,
            SessionState::Idle,
            fresh_id,
        ) is None,
        snapshot.migration is Some ==> session_action(
            node,
            connected,
            snapshot,
            MigrationState::Started,
            SessionState::Idle,
            fresh_id,
        ) == (if snapshot.migration->0.master == node && snapshot.current_set.dom().remove(
            node,
        ).subset_of(connected) && snapshot.migration->0.set.dom().remove(node).subset_of(connected) {
            Some(SessionAction::Start)
        } else {
            None
        }),
{
    law_all_other_nodes_must_be_connected(node, snapshot.current_set.dom(), connected);
    if snapshot.migration is Some {
        law_all_other_nodes_must_be_connected(
            node,
            snapshot.migration->0.set.dom(),
            connected,
        );
    }
}

/// Any session is dropped, and the decision retried, as long as no migration has started. Once
/// one has, so is every session that does not name it. Its own session is left to run, is
/// confirmed by the nodes that the migration leads to once it has finished and dropped by the
/// others, and is dropped once it has failed. The connections have no say in this.
pub proof fn law_action_with_a_session(
    node: NodeId,
    connected: Set<NodeId>,
    snapshot: SnapshotModel,
    id: Option<H256>,
    fresh_id: H256,
)
    ensures
        forall|migration_state: MigrationState, session_state: SessionState|
            migration_state !is Started && session_state !is Idle ==> #[trigger] session_action(
                node,
                connected,
                snapshot,
                migration_state,
                session_state,
                fresh_id,
            ) == Some(SessionAction::DropAndRetry),
        snapshot.migration is Some ==> {
            let migration = snapshot.migration->0;
            let is_own = match id {
                Some(id) => id == migration.id,
                None => forall|i: int| 0 <= i < 32 ==> migration.id.bytes[i] == 0,
            };
            let action = |session_state: SessionState|
                session_action(
                    node,
                    connected,
                    snapshot,
                    MigrationState::Started,
                    session_state,
                    fresh_id,
                );
            &&& is_own ==> action(SessionState::Active(id)) is None
            &&& is_own && migration.set.dom().contains(node) ==> action(SessionState::Finished(id))
                == Some(SessionAction::ConfirmAndDrop(migration.id))
            &&& is_own && !migration.set.dom().contains(node) ==> action(SessionState::Finished(id))
                == Some(SessionAction::Drop)
            &&& is_own ==> action(SessionState::Failed(id)) == Some(SessionAction::Drop)
            &&& !is_own ==> action(SessionState::Active(id)) == Some(SessionAction::DropAndRetry)
            &&& !is_own ==> action(SessionState::Finished(id)) == Some(SessionAction::DropAndRetry)
            &&& !is_own ==> action(SessionState::Failed(id)) == Some(SessionAction::DropAndRetry)
        },
{
    if snapshot.migration is Some {
        lemma_zero_id(snapshot.migration->0.id);
    }
}

/// The identifier whose bytes are all zero is the zero identifier.
proof fn lemma_zero_id(id: H256)
    ensures
        (forall|i: int| 0 <= i < 32 ==> id.bytes[i] == 0) <==> id == H256::zero_spec(),
{
    if forall|i: int| 0 <= i < 32 ==> id.bytes[i] == 0 {
        assert(id.bytes =~= H256::zero_spec().bytes);
    }
}

/// A decision on the session can be taken wherever no migration has started, wherever the started
/// migration is known, and, without a session, wherever some other current server is not
/// connected.
pub proof fn law_what_a_decision_needs(
    node: NodeId,
    connected: Set<NodeId>,
    snapshot: SnapshotModel,
    migration_state: MigrationState,
    session_state: SessionState,
)
    ensures
        session_decidable(node, connected, snapshot, migration_state, session_state) <==> {
            ||| migration_state is Idle
            ||| migration_state is Required
            ||| snapshot.migration is Some
            ||| session_state is Idle && !snapshot.current_set.dom().remove(node).subset_of(
                connected,
            )
        },
{
    law_all_other_nodes_must_be_connected(node, snapshot.current_set.dom(), connected);
}

/// Starting and confirming a migration are calls with the identifier of the action, and no other
/// action is a call. Only a session to start is left to maintain. The session is forgotten with
/// every action but the two that start something.
pub proof fn law_each_action_has_its_effect(action: SessionAction, id: H256)
    ensures
        processed(action).call == Some(KeyServerSetCall::StartMigration(id)) <==> action
            == SessionAction::StartMigration(id),
        processed(action).call == Some(KeyServerSetCall::ConfirmMigration(id)) <==> action
            == SessionAction::ConfirmAndDrop(id),
        processed(action).call is None <==> action is Start || action is Drop
            || action is DropAndRetry,
        processed(action).maintain_required <==> action == SessionAction::Start,
        forgets_session(action) <==> action !is Start && action !is StartMigration,
{
}

/// The session is asked for with the identifier of the migration, with all nodes of the current
/// set as the one set and all nodes that the migration leads to as the other, and with no more.
pub proof fn law_start_request_names_both_sets(snapshot: SnapshotModel, node: NodeId)
    requires
        snapshot.migration is Some,
    ensures
        start_request(snapshot).migration_id == snapshot.migration->0.id,
        start_request(snapshot).current_set.contains(node)
            <==> snapshot.current_set.dom().contains(node),
        start_request(snapshot).migration_set.contains(node)
            <==> snapshot.migration->0.set.dom().contains(node),
{
}

/// The current set is signed first, then the migration set. A start that has come to its end
/// stays there, and has nothing left to sign.
pub proof fn law_start_ends_where_it_has_come_to<G, E>(
    request: StartRequest,
    current_set_signature: G,
    session: NewSession<G>,
    error: E,
    signature: Result<G, E>,
)
    ensures
        set_to_sign(StartStep::<G, E>::SignCurrentSet(request)) == Some(request.current_set),
        set_to_sign(StartStep::<G, E>::SignMigrationSet(request, current_set_signature)) == Some(
            request.migration_set,
        ),
        set_to_sign(StartStep::<G, E>::CreateSession(session)) is None,
        set_to_sign(StartStep::<G, E>::Failed(error)) is None,
        next_start_step(StartStep::<G, E>::CreateSession(session), signature) == StartStep::<
            G,
            E,
        >::CreateSession(session),
        next_start_step(StartStep::<G, E>::Failed(error), signature) == StartStep::<G, E>::Failed(
            error,
        ),
{
}

/// The answer names the master exactly where the migration asked for is the one that is known and
/// the set asked for has the same nodes as the one that it leads to.
pub proof fn law_admission_needs_the_same_migration_and_nodes(
    migration: MigrationModel,
    migration_id: Option<H256>,
    new_server_set: Set<NodeId>,
)
    ensures
        ({
            let answer = admin_public_of(Some(migration), migration_id, new_server_set);
            &&& answer is Ok <==> migration_id is Some && migration_id->0 == migration.id && (
            forall|n: NodeId| new_server_set.contains(n) <==> migration.set.dom().contains(n))
            &&& answer is Ok ==> answer->Ok_0 == migration.master
        }),
        admin_public_of(None, migration_id, new_server_set) is Err,
{
    if forall|n: NodeId| new_server_set.contains(n) <==> migration.set.dom().contains(n) {
        assert(new_server_set =~= migration.set.dom());
    }
}

/// The connector is current exactly when it holds the migration of the snapshot, in every field,
/// or neither holds one. A trigger is well formed unless it is to start a session without knowing
/// of a migration.
pub proof fn law_current_connector_holds_the_migration_of_the_snapshot<S>(
    trigger: ConnectionTriggerWithMigration<S>,
)
    ensures
        ({
            let held = trigger.session.connector.migration;
            let known = trigger.snapshot.migration;
            trigger.connector_is_current() <==> {
                ||| held is None && known is None
                ||| {
                    &&& held is Some
                    &&& known is Some
                    &&& held->0.id == known->0.id
                    &&& held->0.set@ == known->0.set@
                    &&& held->0.master == known->0.master
                    &&& held->0.is_confirmed == known->0.is_confirmed
                }
            }
        }),
        !trigger.well_formed() <==> trigger.session_action == Some(SessionAction::Start)
            && trigger.snapshot.migration is None,
{
}

/// What maintenance comes to where the session of the started migration itself is held: it is
/// left to run with the connections as they are; once it has finished, it is forgotten, and
/// confirmed by the nodes that the migration leads to; once it has failed, it is forgotten.
pub proof fn law_maintenance_with_the_session_of_the_migration<S>(
    trigger: ConnectionTriggerWithMigration<S>,
    session: Arc<AdminSession<S>>,
    progress: SessionProgress,
    done: Maintenance,
)
    requires
        trigger.decided(Some(session), progress, done),
        trigger.snapshot.migration is Some,
        trigger.snapshot.current_set@.dom().contains(trigger.self_node_id)
            || trigger.snapshot.migration->0.set@.dom().contains(trigger.self_node_id),
        *session is ServersSetChange,
        match (*session)->ServersSetChange_0.migration_id {
            Some(id) => id == trigger.snapshot.migration->0.id,
            None => forall|i: int| 0 <= i < 32 ==> trigger.snapshot.migration->0.id.bytes[i] == 0,
        },
    ensures
        ({
            let id = trigger.snapshot.migration->0.id;
            let is_next = trigger.snapshot.migration->0.set@.dom().contains(trigger.self_node_id);
            &&& done.suspicious is None
            &&& progress == SessionProgress::Running ==> {
                &&& trigger.session_action is None
                &&& trigger.connections_action is None
                &&& trigger.session.connector.session == Some(session)
                &&& done.maintain is None
                &&& done.call is None
            }
            &&& progress != SessionProgress::Running ==> {
                &&& trigger.connections_action == Some(
                    ConnectionsAction::ConnectToCurrentAndMigrationSet,
                )
                &&& trigger.session.connector.session is None
                &&& done.maintain == Some(Maintain::Connections)
            }
            &&& progress == SessionProgress::Succeeded && is_next ==> {
                &&& trigger.session_action == Some(SessionAction::ConfirmAndDrop(id))
                &&& done.call == Some(KeyServerSetCall::ConfirmMigration(id))
            }
            &&& progress == SessionProgress::Failed || progress == SessionProgress::Succeeded
                && !is_next ==> {
                &&& trigger.session_action == Some(SessionAction::Drop)
                &&& done.call is None
            }
        }),
{
    lemma_zero_id(trigger.snapshot.migration->0.id);
}

/// What maintenance comes to where no session of the started migration is held.
///
/// A session that changes the set of servers is forgotten, and reported with the two states that
/// do not go together; one of another kind is kept. Then the migration alone counts: without one
/// the node connects to the current set, and with one to both sets; the master starts a required
/// migration, and starts the session of a started one once all other nodes are connected.
pub proof fn law_maintenance_without_a_session_of_the_migration<S>(
    trigger: ConnectionTriggerWithMigration<S>,
    held: Option<Arc<AdminSession<S>>>,
    progress: SessionProgress,
    done: Maintenance,
)
    requires
        trigger.decided(held, progress, done),
        held is Some && *held->0 is ServersSetChange ==> {
            ||| trigger.snapshot.migration is None
            ||| !trigger.snapshot.current_set@.dom().contains(trigger.self_node_id)
                && !trigger.snapshot.migration->0.set@.dom().contains(trigger.self_node_id)
            ||| match (*held->0)->ServersSetChange_0.migration_id {
                Some(id) => id != trigger.snapshot.migration->0.id,
                None => exists|i: int|
                    0 <= i < 32 && trigger.snapshot.migration->0.id.bytes[i] != 0,
            }
        },
    ensures
        ({
            let node = trigger.self_node_id;
            let current = trigger.snapshot.current_set@.dom();
            let new = trigger.snapshot.new_set@.dom();
            let migration = trigger.snapshot.migration->0;
            let takes_part = current.contains(node) || trigger.snapshot.migration is Some
                && migration.set@.dom().contains(node);
            let is_started = takes_part && trigger.snapshot.migration is Some;
            let is_required = takes_part && trigger.snapshot.migration is None && current != new;
            let can_start = migration.master == node && current.remove(node).subset_of(
                trigger.connected@,
            ) && migration.set@.dom().remove(node).subset_of(trigger.connected@);
            let is_obsolete = held is Some && *held->0 is ServersSetChange;
            let id = (*held->0)->ServersSetChange_0.migration_id;
            // the session
            &&& trigger.session.connector.session == (if is_obsolete {
                None
            } else {
                held
            })
            &&& done.suspicious == (if is_obsolete {
                Some(
                    (
                        if is_started {
                            MigrationState::Started
                        } else if is_required {
                            MigrationState::Required
                        } else {
                            MigrationState::Idle
                        },
                        match progress {
                            SessionProgress::Running => SessionState::Active(id),
                            SessionProgress::Succeeded => SessionState::Finished(id),
                            SessionProgress::Failed => SessionState::Failed(id),
                        },
                    ),
                )
            } else {
                None
            })
            // the connections
            &&& trigger.connections_action == Some(
                if is_started || is_required {
                    ConnectionsAction::ConnectToCurrentAndMigrationSet
                } else {
                    ConnectionsAction::ConnectToCurrentSet
                },
            )
            // the start of the session
            &&& trigger.session_action == Some(SessionAction::Start) <==> is_started && can_start
            &&& done.maintain == Some(
                if is_started && can_start {
                    Maintain::SessionAndConnections
                } else {
                    Maintain::Connections
                },
            )
            // the start of the migration
            &&& done.call is Some <==> is_required && master_of(trigger.snapshot@) == Some(node)
            &&& done.call is Some ==> done.call->0 is StartMigration && trigger.session_action
                == Some(SessionAction::StartMigration(done.call->0->StartMigration_0))
            // nothing else
            &&& done.call is None && !(is_started && can_start) ==> trigger.session_action is None
        }),
{
    let current = trigger.snapshot.current_set@.dom();
    law_all_other_nodes_must_be_connected(
        trigger.self_node_id,
        current,
        trigger.connected@,
    );
    if trigger.snapshot.migration is Some {
        lemma_zero_id(trigger.snapshot.migration->0.id);
        law_all_other_nodes_must_be_connected(
            trigger.self_node_id,
            trigger.snapshot.migration->0.set@.dom(),
            trigger.connected@,
        );
    }
}

} // verus!
