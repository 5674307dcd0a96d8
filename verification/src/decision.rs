//! What a node has to do next, given the state of the migration and of its session.

use crate::hash::random_id;
use crate::hash::H256;
use crate::node::lemma_order_is_asymmetric;
use crate::node::NodeId;
use crate::node_map::NodeMap;
use crate::node_set::is_least;
use crate::node_set::NodeSet;
use crate::snapshot::KeyServerSetSnapshot;
use crate::snapshot::SnapshotModel;
use crate::state::MigrationState;
use crate::state::SessionState;
use vstd::prelude::*;

verus! {

/// Migration session action.
#[derive(Debug, Clone, Copy, PartialEq, Eq)]
pub enum SessionAction {
    /// Start migration (confirm migration transaction).
    StartMigration(H256),
    /// Start migration session.
    Start,
    /// Confirm migration and forget migration session.
    ConfirmAndDrop(H256),
    /// Forget migration session.
    Drop,
    /// Forget migration session and retry.
    DropAndRetry,
}

/// Connections action.
#[derive(Debug, Clone, Copy, PartialEq, Eq, Structural)]
pub enum ConnectionsAction {
    /// Connect to nodes from the current set only.
    ConnectToCurrentSet,
    /// Connect to nodes from the current and the migration set.
    ConnectToCurrentAndMigrationSet,
}

/// The member of `nodes` that comes before all the others, if there is one.
pub open spec fn least(nodes: Set<NodeId>) -> Option<NodeId> {
    if exists|node: NodeId| is_least(nodes, node) {
        Some(choose|node: NodeId| is_least(nodes, node))
    } else {
        None
    }
}

/// The node that leads the migration.
///
/// It is the master of the migration that has started. Before that it is the least node that
/// stays in the cluster or, where none stays, the least of those that shall make it up.
pub open spec fn master_of(snapshot: SnapshotModel) -> Option<NodeId> {
    match snapshot.migration {
        Some(migration) => Some(migration.master),
        None => match least(snapshot.current_set.dom().intersect(snapshot.new_set.dom())) {
            Some(node) => Some(node),
            None => least(snapshot.new_set.dom()),
        },
    }
}

/// `node` is connected to each of `nodes` but itself.
pub open spec fn connected_to_all(node: NodeId, nodes: Set<NodeId>, connected: Set<NodeId>) -> bool {
    forall|other: NodeId| nodes.contains(other) && other != node ==> connected.contains(other)
}

/// A session that names no migration counts as one of the migration with the zero identifier.
pub open spec fn migration_id_of(session_migration_id: Option<H256>) -> H256 {
    match session_migration_id {
        Some(id) => id,
        None => H256::zero_spec(),
    }
}

/// What `node` has to do about the migration session. A migration that it has to start gets the
/// identifier `fresh_id`.
pub open spec fn session_action(
    node: NodeId,
    connected: Set<NodeId>,
    snapshot: SnapshotModel,
    migration_state: MigrationState,
    session_state: SessionState,
    fresh_id: H256,
) -> Option<SessionAction> {
    let is_master = master_of(snapshot) == Some(node);
    let migration = snapshot.migration->0;
    match (migration_state, session_state) {
        (MigrationState::Idle, SessionState::Idle) => None,
        (MigrationState::Required, SessionState::Idle) => if is_master {
            Some(SessionAction::StartMigration(fresh_id))
        } else {
            None
        },
        (MigrationState::Started, SessionState::Idle) => if connected_to_all(
            node,
            snapshot.current_set.dom(),
            connected,
        ) && connected_to_all(node, migration.set.dom(), connected) && is_master {
            Some(SessionAction::Start)
        } else {
            None
        },
        (MigrationState::Started, SessionState::Active(id)) if migration.id == migration_id_of(
            id,
        ) => None,
        (MigrationState::Started, SessionState::Finished(id)) if migration.id == migration_id_of(
            id,
        ) => if migration.set.contains_key(node) {
            Some(SessionAction::ConfirmAndDrop(migration.id))
        } else {
            Some(SessionAction::Drop)
        },
        (MigrationState::Started, SessionState::Failed(id)) if migration.id == migration_id_of(
            id,
        ) => Some(SessionAction::Drop),
        _ => Some(SessionAction::DropAndRetry),
    }
}

/// The snapshot has all that is needed to decide on the session: with a started migration it
/// holds that migration, unless a missing connection settles the matter before.
pub open spec fn session_decidable(
    node: NodeId,
    connected: Set<NodeId>,
    snapshot: SnapshotModel,
    migration_state: MigrationState,
    session_state: SessionState,
) -> bool {
    ||| migration_state !is Started
    ||| snapshot.migration is Some
    ||| session_state is Idle && !connected_to_all(node, snapshot.current_set.dom(), connected)
}

/// The identifier that `action` gives to a new migration; zero where it starts none.
pub open spec fn fresh_id_of(action: Option<SessionAction>) -> H256 {
    match action {
        Some(SessionAction::StartMigration(id)) => id,
        _ => H256::zero_spec(),
    }
}

/// What a node has to do about its connections.
pub open spec fn connections_action(
    migration_state: MigrationState,
    session_state: SessionState,
) -> Option<ConnectionsAction> {
    if session_state is Active {
        None
    } else if migration_state is Idle {
        Some(ConnectionsAction::ConnectToCurrentSet)
    } else {
        Some(ConnectionsAction::ConnectToCurrentAndMigrationSet)
    }
}

/// Decides what this node has to do about the migration session.
///
/// The identifier of a migration that it has to start is drawn at random.
pub fn maintain_session(
    self_node_id: &NodeId,
    connected: &NodeSet,
    snapshot: &KeyServerSetSnapshot,
    migration_state: MigrationState,
    session_state: SessionState,
) -> (action: Option<SessionAction>)
    requires
        session_decidable(*self_node_id, connected@, snapshot@, migration_state, session_state),
    ensures
        action == session_action(
            *self_node_id,
            connected@,
            snapshot@,
            migration_state,
            session_state,
            fresh_id_of(action),
        ),
{
    let action = maintain_session_with_id(
        self_node_id,
        connected,
        snapshot,
        migration_state,
        session_state,
        H256::zero(),
    );
    match action {
        Some(SessionAction::StartMigration(_)) => Some(SessionAction::StartMigration(random_id())),
        _ => action,
    }
}

/// Decides what this node has to do about the migration session, where `fresh_id` is the
/// identifier of a migration that it has to start.
pub fn maintain_session_with_id(
    self_node_id: &NodeId,
    connected: &NodeSet,
    snapshot: &KeyServerSetSnapshot,
    migration_state: MigrationState,
    session_state: SessionState,
    fresh_id: H256,
) -> (action: Option<SessionAction>)
    requires
        session_decidable(*self_node_id, connected@, snapshot@, migration_state, session_state),
    ensures
        action == session_action(
            *self_node_id,
            connected@,
            snapshot@,
            migration_state,
            session_state,
            fresh_id,
        ),
{
    match (migration_state, session_state) {
        // === NORMAL combinations ===
        // no session, and none is required
        (MigrationState::Idle, SessionState::Idle) => None,
        // a migration is required, and there is no session: the master starts the migration
        (MigrationState::Required, SessionState::Idle) => {
            if is_master_node(self_node_id, snapshot) {
                Some(SessionAction::StartMigration(fresh_id))
            } else {
                None
            }
        },
        // the migration has started, and there is no session: the master starts the session as
        // soon as it is connected to all nodes
        (MigrationState::Started, SessionState::Idle) => {
            if is_connected_to_all_nodes(self_node_id, &snapshot.current_set, connected)
                && is_connected_to_all_migration_nodes(self_node_id, snapshot, connected)
                && is_master_node(self_node_id, snapshot) {
                Some(SessionAction::Start)
            } else {
                None
            }
        },
        // the session of the migration still runs
        (MigrationState::Started, SessionState::Active(id)) => {
            if is_migration_of_session(snapshot, id) {
                None
            } else {
                Some(SessionAction::DropAndRetry)
            }
        },
        // the session of the migration has finished: the nodes that it leads to confirm it
        (MigrationState::Started, SessionState::Finished(id)) => {
            if is_migration_of_session(snapshot, id) {
                match &snapshot.migration {
                    Some(migration) => if migration.set.contains_key(self_node_id) {
                        Some(SessionAction::ConfirmAndDrop(migration.id))
                    } else {
                        Some(SessionAction::Drop)
                    },
                    None => None,
                }
            } else {
                Some(SessionAction::DropAndRetry)
            }
        },
        // the session of the migration has failed: it is dropped, and started again later
        (MigrationState::Started, SessionState::Failed(id)) => {
            if is_migration_of_session(snapshot, id) {
                Some(SessionAction::Drop)
            } else {
                Some(SessionAction::DropAndRetry)
            }
        },
        // === ABNORMAL combinations, possible when the contract misbehaves ===
        // there is a session, though none can have been started: it is obsolete
        (MigrationState::Idle, _) | (MigrationState::Required, _) => {
            Some(SessionAction::DropAndRetry)
        },
    }
}

/// Tells whether a session with the given migration id is one of the started migration.
fn is_migration_of_session(snapshot: &KeyServerSetSnapshot, id: Option<H256>) -> (same: bool)
    requires
        snapshot.migration is Some,
    ensures
        same == (snapshot@.migration->0.id == migration_id_of(id)),
        id is Some ==> same == (snapshot.migration->0.id == id->0),
{
    let session_migration_id = match id {
        Some(id) => id,
        None => H256::zero(),
    };
    match &snapshot.migration {
        Some(migration) => migration.id == session_migration_id,
        None => false,
    }
}

/// Tells whether this node is connected to all other nodes that the started migration leads to.
fn is_connected_to_all_migration_nodes(
    self_node_id: &NodeId,
    snapshot: &KeyServerSetSnapshot,
    connected: &NodeSet,
) -> (all: bool)
    requires
        snapshot.migration is Some,
    ensures
        all == connected_to_all(*self_node_id, snapshot@.migration->0.set.dom(), connected@),
{
    match &snapshot.migration {
        Some(migration) => is_connected_to_all_nodes(self_node_id, &migration.set, connected),
        None => false,
    }
}

/// Tells whether this node leads the migration.
fn is_master_node(self_node_id: &NodeId, snapshot: &KeyServerSetSnapshot) -> (is_master: bool)
    ensures
        is_master == (master_of(snapshot@) == Some(*self_node_id)),
{
    match select_master_node(snapshot) {
        Some(master) => *master == *self_node_id,
        None => false,
    }
}

/// Decides what this node has to do about its connections.
pub fn maintain_connections(migration_state: MigrationState, session_state: SessionState) -> (action:
    Option<ConnectionsAction>)
    ensures
        action == connections_action(migration_state, session_state),
        action is None <==> session_state is Active,
        action == Some(ConnectionsAction::ConnectToCurrentSet) <==> session_state !is Active
            && migration_state == MigrationState::Idle,
        action == Some(ConnectionsAction::ConnectToCurrentAndMigrationSet) <==> session_state
            !is Active && migration_state != MigrationState::Idle,
{
    match (migration_state, session_state) {
        // connections are left alone while a session is active
        (_, SessionState::Active(_)) => None,
        // without a migration the node stays connected to the current set
        (MigrationState::Idle, _) => Some(ConnectionsAction::ConnectToCurrentSet),
        // a node that is not in the current set yet takes part in the session too, so both sets
        // are needed while a migration is required or under way
        (MigrationState::Required, _) | (MigrationState::Started, _) => Some(
            ConnectionsAction::ConnectToCurrentAndMigrationSet,
        ),
    }
}

/// Tells whether this node is connected to each of `nodes` but itself.
pub fn is_connected_to_all_nodes(self_node_id: &NodeId, nodes: &NodeMap, connected: &NodeSet) -> (all:
    bool)
    ensures
        all == connected_to_all(*self_node_id, nodes@.dom(), connected@),
        all == nodes@.dom().remove(*self_node_id).subset_of(connected@),
{
    let others = nodes.keys().nodes();
    let mut i: usize = 0;
    while i < others.len()
        invariant
            i <= others@.len(),
            others@.to_set() == nodes@.dom(),
            forall|j: int|
                0 <= j < i ==> (#[trigger] others@[j]) == *self_node_id || connected@.contains(
                    others@[j],
                ),
        decreases others@.len() - i,
    {
        if others[i] != *self_node_id && !connected.contains(&others[i]) {
            assert(others@.to_set().contains(others@[i as int]));
            assert(nodes@.dom().remove(*self_node_id).contains(others@[i as int]));
            return false;
        }
        i = i + 1;
    }
    assert forall|other: NodeId|
        nodes@.dom().contains(other) && other != *self_node_id implies connected@.contains(
        other,
    ) by {
        assert(others@.to_set().contains(other));
    }
    true
}

/// Selects the node that leads the migration.
pub fn select_master_node(server_set_state: &KeyServerSetSnapshot) -> (master: Option<&NodeId>)
    ensures
        match master {
            Some(node) => master_of(server_set_state@) == Some(*node),
            None => master_of(server_set_state@) is None,
        },
{
    match &server_set_state.migration {
        Some(migration) => Some(&migration.master),
        None => {
            let ghost common = server_set_state@.current_set.dom().intersect(
                server_set_state@.new_set.dom(),
            );
            let staying = server_set_state.current_set.keys().first_common(
                server_set_state.new_set.keys(),
            );
            match staying {
                Some(node) => {
                    proof {
                        lemma_least(common, *node);
                    }
                    Some(node)
                },
                None => {
                    let first = server_set_state.new_set.keys().first();
                    proof {
                        match first {
                            Some(node) => lemma_least(server_set_state@.new_set.dom(), *node),
                            None => (),
                        }
                    }
                    first
                },
            }
        },
    }
}

/// A set has one least member at most.
pub proof fn lemma_least(nodes: Set<NodeId>, node: NodeId)
    requires
        is_least(nodes, node),
    ensures
        least(nodes) == Some(node),
{
    let other = choose|n: NodeId| is_least(nodes, n);
    if other != node {
        lemma_order_is_asymmetric(other, node);
    }
}

} // verus!
