//! What the values mean: identifiers, the order of nodes, models, and sessions.

use crate::connector::pointee;
use crate::connector::ServersSetChangeSessionCreatorConnectorWithMigration;
use crate::hash::H256;
use crate::node::NodeId;
use crate::node_set::ascending;
use crate::node_set::is_least;
use crate::session::StartRequest;
use crate::snapshot::default_migration;
use crate::snapshot::empty_snapshot;
use crate::snapshot::migration_model;
use crate::snapshot::KeyServerSetMigration;
use crate::snapshot::KeyServerSetSnapshot;
use crate::state::is_servers_set_change;
use crate::state::next_observation;
use crate::state::session_state_of;
use crate::state::AdminSession;
use crate::state::Observation;
use crate::state::SessionProgress;
use crate::state::SessionState;
use std::sync::Arc;
use vstd::prelude::*;
use vstd::std_specs::cmp::PartialEqSpec;

verus! {

/// All bytes of a zero identifier, and of a zero identity, are zero.
pub proof fn law_zero_has_zero_bytes(i: int)
    ensures
        0 <= i < 32 ==> H256::zero_spec().bytes[i] == 0,
        0 <= i < 64 ==> NodeId::zero_spec().bytes[i] == 0,
{
}

/// Identifiers, and nodes, compare as equal exactly when they agree in every byte.
pub proof fn law_equality_is_bytewise(a: H256, b: H256, c: NodeId, d: NodeId)
    ensures
        H256::obeys_eq_spec(),
        NodeId::obeys_eq_spec(),
        a.eq_spec(&b) <==> forall|i: int| 0 <= i < 32 ==> a.bytes[i] == b.bytes[i],
        c.eq_spec(&d) <==> forall|i: int| 0 <= i < 64 ==> c.bytes[i] == d.bytes[i],
{
    if forall|i: int| 0 <= i < 32 ==> a.bytes[i] == b.bytes[i] {
        assert(a.bytes =~= b.bytes);
    }
    if forall|i: int| 0 <= i < 64 ==> c.bytes[i] == d.bytes[i] {
        assert(c.bytes =~= d.bytes);
    }
}

/// A node comes before another exactly when it has the smaller byte where they first differ.
pub proof fn law_order_goes_by_the_first_difference(a: NodeId, b: NodeId)
    ensures
        a.precedes(b) <==> exists|i: int|
            0 <= i < 64 && #[trigger] a.bytes[i] < b.bytes[i] && forall|j: int|
                0 <= j < i ==> a.bytes[j] == b.bytes[j],
{
    if a.precedes(b) {
        let i = choose|i: int| a.parts_below_at(b, i);
        assert(a.bytes[i] < b.bytes[i]);
    }
    if exists|i: int|
        0 <= i < 64 && #[trigger] a.bytes[i] < b.bytes[i] && forall|j: int|
            0 <= j < i ==> a.bytes[j] == b.bytes[j] {
        let i = choose|i: int|
            0 <= i < 64 && #[trigger] a.bytes[i] < b.bytes[i] && forall|j: int|
                0 <= j < i ==> a.bytes[j] == b.bytes[j];
        assert(a.parts_below_at(b, i));
    }
}

/// Nodes stand in ascending order exactly when each comes before every later one.
pub proof fn law_ascending_nodes_precede_later_ones(nodes: Seq<NodeId>)
    ensures
        ascending(nodes) <==> forall|i: int, j: int|
            0 <= i < j < nodes.len() ==> (#[trigger] nodes[i]).precedes(#[trigger] nodes[j]),
{
}

/// The least node is the member that precedes every other member.
pub proof fn law_least_node_precedes_the_others(nodes: Set<NodeId>, node: NodeId)
    ensures
        is_least(nodes, node) <==> nodes.contains(node) && forall|other: NodeId|
            nodes.remove(node).contains(other) ==> node.precedes(other),
{
}

/// A model holds what the value holds, field by field.
pub proof fn law_models_hold_the_fields(
    migration: KeyServerSetMigration,
    snapshot: KeyServerSetSnapshot,
    request: StartRequest,
)
    ensures
        migration@.id == migration.id,
        migration@.set == migration.set@,
        migration@.master == migration.master,
        migration@.is_confirmed == migration.is_confirmed,
        migration_model(Some(migration)) == Some(migration@),
        migration_model(None) is None,
        snapshot@.current_set == snapshot.current_set@,
        snapshot@.new_set == snapshot.new_set@,
        snapshot@.migration is Some <==> snapshot.migration is Some,
        snapshot.migration is Some ==> snapshot@.migration->0 == snapshot.migration->0@,
        request@.migration_id == request.migration_id,
        request@.current_set == request.current_set@,
        request@.migration_set == request.migration_set@,
{
}

/// By default there are no servers, and a migration has zero bytes for its identifier and its
/// master and is not confirmed.
pub proof fn law_defaults_are_empty(node: NodeId, i: int)
    ensures
        !default_migration().set.dom().contains(node),
        !default_migration().is_confirmed,
        0 <= i < 32 ==> default_migration().id.bytes[i] == 0,
        0 <= i < 64 ==> default_migration().master.bytes[i] == 0,
        !empty_snapshot().current_set.dom().contains(node),
        !empty_snapshot().new_set.dom().contains(node),
        empty_snapshot().migration is None,
{
}

/// A reference to an identifier stands for that identifier.
pub proof fn law_reference_stands_for_its_identifier(id: H256)
    ensures
        pointee(Some(&id)) == Some(id),
        pointee(None) is None,
{
}

/// Storing a session changes nothing but the session.
pub proof fn law_storing_replaces_the_session_only<S>(
    connector: ServersSetChangeSessionCreatorConnectorWithMigration<S>,
    session: Arc<AdminSession<S>>,
)
    ensures
        connector.storing(session).session == Some(session),
        connector.storing(session).migration == connector.migration,
{
}

/// The state of a session that changes the set of servers tells its progress and carries its own
/// migration identifier, whatever that is. Any other session, and none at all, count as idle.
pub proof fn law_session_state_carries_the_migration_id<S>(
    session: Arc<AdminSession<S>>,
    migration_id: Option<H256>,
    progress: SessionProgress,
)
    ensures
        is_servers_set_change(Some(session)) <==> *session is ServersSetChange,
        !is_servers_set_change::<S>(None),
        *session is ServersSetChange && (*session)->ServersSetChange_0.migration_id == migration_id
            ==> {
            &&& session_state_of(Some(session), SessionProgress::Running) == SessionState::Active(
                migration_id,
            )
            &&& session_state_of(Some(session), SessionProgress::Succeeded)
                == SessionState::Finished(migration_id)
            &&& session_state_of(Some(session), SessionProgress::Failed) == SessionState::Failed(
                migration_id,
            )
        },
        *session is Other ==> session_state_of(Some(session), progress) == SessionState::Idle,
        session_state_of::<S>(None, progress) == SessionState::Idle,
{
}

/// What is known of a session stays known.
pub proof fn law_known_progress_is_final(progress: SessionProgress, answer: bool)
    ensures
        next_observation(Observation::Known(progress), answer) == Observation::Known(progress),
{
}

} // verus!
