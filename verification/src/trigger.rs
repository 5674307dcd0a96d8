//! The trigger: keeps track of the cluster and of what a node has to do for a migration.

use crate::connector::ServersSetChangeSessionCreatorConnectorWithMigration;
use crate::decision::connections_action;
use crate::decision::fresh_id_of;
use crate::decision::maintain_connections;
use crate::decision::maintain_session;
use crate::decision::session_action;
use crate::decision::ConnectionsAction;
use crate::decision::SessionAction;
use crate::hash::H256;
use crate::node::NodeId;
use crate::node_set::NodeSet;
use crate::session::forgets_session;
use crate::session::processed;
use crate::session::start_request;
use crate::session::KeyServerSetCall;
use crate::session::Processed;
use crate::session::StartRequest;
use crate::session::TriggerSession;
use crate::snapshot::copy_migration;
use crate::snapshot::migration_model;
use crate::snapshot::KeyServerSetSnapshot;
use crate::snapshot::SnapshotModel;
use crate::state::migration_state;
use crate::state::migration_state_of;
use crate::state::session_state;
use crate::state::session_state_of;
use crate::state::AdminSession;
use crate::state::MigrationState;
use crate::state::SessionProgress;
use crate::state::SessionState;
use std::sync::Arc;
use vstd::prelude::*;

verus! {

/// What has to be maintained.
#[derive(Debug, Clone, Copy, PartialEq, Eq, Structural)]
pub enum Maintain {
    /// We need to maintain() session.
    Session,
    /// We need to maintain() connections.
    Connections,
    /// We need to maintain() session && connections.
    SessionAndConnections,
}

/// What maintenance comes to.
#[derive(Debug, Clone, Copy, PartialEq, Eq)]
pub struct Maintenance {
    /// What has to be maintained now.
    pub maintain: Option<Maintain>,
    /// The call that the set of key servers has to get, if there is one.
    pub call: Option<KeyServerSetCall>,
    /// The states that did not go together, if the session was obsolete.
    pub suspicious: Option<(MigrationState, SessionState)>,
}

/// A session in the state `observed` is obsolete: it does not belong to the state of the
/// migration.
pub open spec fn is_obsolete(
    node: NodeId,
    connected: Set<NodeId>,
    snapshot: SnapshotModel,
    observed: SessionState,
) -> bool {
    session_action(
        node,
        connected,
        snapshot,
        migration_state_of(node, snapshot),
        observed,
        H256::zero_spec(),
    ) == Some(SessionAction::DropAndRetry)
}

/// The state of the session after maintenance has dropped it where it is obsolete.
pub open spec fn settled_session_state(
    node: NodeId,
    connected: Set<NodeId>,
    snapshot: SnapshotModel,
    observed: SessionState,
) -> SessionState {
    if is_obsolete(node, connected, snapshot, observed) {
        SessionState::Idle
    } else {
        observed
    }
}

/// What has to be maintained, given the actions.
pub open spec fn maintain_of(
    session_action: Option<SessionAction>,
    connections_action: Option<ConnectionsAction>,
) -> Option<Maintain> {
    let session = session_action == Some(SessionAction::Start);
    match (session, connections_action is Some) {
        (true, true) => Some(Maintain::SessionAndConnections),
        (true, false) => Some(Maintain::Session),
        (false, true) => Some(Maintain::Connections),
        (false, false) => None,
    }
}

/// The call that goes with a session action, if one does.
pub open spec fn call_of(session_action: Option<SessionAction>) -> Option<KeyServerSetCall> {
    match session_action {
        Some(action) => processed(action).call,
        None => None,
    }
}

/// Key servers set change trigger with automated migration procedure.
///
/// `S` is a session as it runs. Whoever calls the trigger tells it how far the session that its
/// connector holds has come.
#[derive(Debug, PartialEq, Eq)]
pub struct ConnectionTriggerWithMigration<S> {
    /// This node.
    pub self_node_id: NodeId,
    /// Last server set state.
    pub snapshot: KeyServerSetSnapshot,
    /// Required connections action.
    pub connections_action: Option<ConnectionsAction>,
    /// Required session action.
    pub session_action: Option<SessionAction>,
    /// Currently connected nodes.
    pub connected: NodeSet,
    /// Trigger migration session.
    pub session: TriggerSession<S>,
}

impl<S> ConnectionTriggerWithMigration<S> {
    /// A session that is to be started belongs to a migration that the trigger knows of.
    pub open spec fn well_formed(self) -> bool {
        self.session_action == Some(SessionAction::Start) ==> self.snapshot.migration is Some
    }

    /// Sessions are checked against the migration that the trigger knows of.
    pub open spec fn connector_is_current(self) -> bool {
        migration_model(self.session.connector.migration) == self.snapshot@.migration
    }

    /// The trigger after maintenance that came to `done`, where the connector held the session
    /// `held` before, which had come as far as `progress`.
    pub open spec fn decided(
        self,
        held: Option<Arc<AdminSession<S>>>,
        progress: SessionProgress,
        done: Maintenance,
    ) -> bool {
        let observed = session_state_of(held, progress);
        let migration_state = migration_state_of(self.self_node_id, self.snapshot@);
        let obsolete = is_obsolete(
            self.self_node_id,
            self.connected@,
            self.snapshot@,
            observed,
        );
        let session_state = settled_session_state(
            self.self_node_id,
            self.connected@,
            self.snapshot@,
            observed,
        );
        &&& self.session_action == session_action(
            self.self_node_id,
            self.connected@,
            self.snapshot@,
            migration_state,
            session_state,
            fresh_id_of(self.session_action),
        )
        &&& self.connections_action == connections_action(migration_state, session_state)
        &&& self.session.connector.session == (if obsolete || self.session_action is Some
            && forgets_session(self.session_action->0) {
            None
        } else {
            held
        })
        &&& done.maintain == maintain_of(self.session_action, self.connections_action)
        &&& done.call == call_of(self.session_action)
        &&& done.suspicious == (if obsolete {
            Some((migration_state, observed))
        } else {
            None
        })
    }

    /// Create new trigger with migration, for the given state of the servers.
    pub fn new(snapshot: KeyServerSetSnapshot, self_node_id: NodeId) -> (trigger: Self)
        ensures
            trigger.self_node_id == self_node_id,
            trigger.snapshot == snapshot,
            trigger.connections_action is None,
            trigger.session_action is None,
            trigger.connected@ == Set::<NodeId>::empty(),
            migration_model(trigger.session.connector.migration) == snapshot@.migration,
            trigger.session.connector.session is None,
            trigger.well_formed(),
            trigger.connector_is_current(),
    {
        let migration = copy_migration(&snapshot.migration);
        ConnectionTriggerWithMigration {
            self_node_id,
            snapshot,
            connections_action: None,
            session_action: None,
            connected: NodeSet::new(),
            session: TriggerSession {
                connector: ServersSetChangeSessionCreatorConnectorWithMigration {
                    migration,
                    session: None,
                },
            },
        }
    }

    /// Actually do maintenance. The session that the connector holds has come as far as
    /// `progress`.
    ///
    /// A session that is obsolete is forgotten first, and what is left is decided without it.
    pub fn do_maintain(&mut self, progress: SessionProgress) -> (done: Maintenance)
        ensures
            final(self).decided(old(self).session.connector.session, progress, done),
            final(self).self_node_id == old(self).self_node_id,
            final(self).snapshot == old(self).snapshot,
            final(self).connected == old(self).connected,
            final(self).session.connector.migration == old(self).session.connector.migration,
            final(self).well_formed(),
            old(self).connector_is_current() ==> final(self).connector_is_current(),
    {
        let ghost observed = session_state_of(self.session.connector.session, progress);
        let ghost obsolete = is_obsolete(
            self.self_node_id,
            self.connected@,
            self.snapshot@,
            observed,
        );
        let mut suspicious: Option<(MigrationState, SessionState)> = None;
        loop
            invariant
                self.self_node_id == old(self).self_node_id,
                self.snapshot == old(self).snapshot,
                self.connected == old(self).connected,
                self.session.connector.migration == old(self).session.connector.migration,
                observed == session_state_of(old(self).session.connector.session, progress),
                obsolete == is_obsolete(
                    self.self_node_id,
                    self.connected@,
                    self.snapshot@,
                    observed,
                ),
                self.session.connector.session == old(self).session.connector.session && suspicious
                    is None || self.session.connector.session is None && obsolete && suspicious
                    == Some((migration_state_of(self.self_node_id, self.snapshot@), observed)),
            decreases
                    if self.session.connector.session is Some {
                        1int
                    } else {
                        0int
                    },
        {
            let session_state = session_state(&self.session.connector.session, progress);
            let migration_state = migration_state(&self.self_node_id, &self.snapshot);

            let session_action = maintain_session(
                &self.self_node_id,
                &self.connected,
                &self.snapshot,
                migration_state,
                session_state,
            );
            let processed = match session_action {
                Some(action) => self.session.process(action),
                None => Processed { call: None, maintain_required: false },
            };
            self.session_action = session_action;

            let connections_action = maintain_connections(migration_state, session_state);
            self.connections_action = connections_action;

            match session_action {
                Some(SessionAction::DropAndRetry) => {
                    suspicious = Some((migration_state, session_state));
                },
                _ => {
                    let maintain = match (processed.maintain_required, connections_action.is_some()) {
                        (true, true) => Some(Maintain::SessionAndConnections),
                        (true, false) => Some(Maintain::Session),
                        (false, true) => Some(Maintain::Connections),
                        (false, false) => None,
                    };
                    return Maintenance { maintain, call: processed.call, suspicious };
                },
            }
        }
    }

    /// Takes note of the state of the servers, and does maintenance.
    ///
    /// From now on sessions are checked against the migration in `snapshot`.
    pub fn on_maintain(&mut self, snapshot: KeyServerSetSnapshot, progress: SessionProgress) -> (done:
        Maintenance)
        ensures
            final(self).decided(old(self).session.connector.session, progress, done),
            final(self).self_node_id == old(self).self_node_id,
            final(self).snapshot == snapshot,
            final(self).connected == old(self).connected,
            migration_model(final(self).session.connector.migration) == snapshot@.migration,
            final(self).well_formed(),
            final(self).connector_is_current(),
    {
        self.session.connector.migration = copy_migration(&snapshot.migration);
        self.snapshot = snapshot;
        self.do_maintain(progress)
    }

    /// Takes note of a connection to `node`, and does maintenance.
    pub fn on_connection_established(&mut self, node: &NodeId, progress: SessionProgress) -> (done:
        Maintenance)
        ensures
            final(self).decided(old(self).session.connector.session, progress, done),
            final(self).self_node_id == old(self).self_node_id,
            final(self).snapshot == old(self).snapshot,
            final(self).connected@ == old(self).connected@.insert(*node),
            final(self).session.connector.migration == old(self).session.connector.migration,
            final(self).well_formed(),
            old(self).connector_is_current() ==> final(self).connector_is_current(),
    {
        self.connected.insert(*node);
        self.do_maintain(progress)
    }

    /// Takes note that the connection to `node` is closed, and does maintenance.
    pub fn on_connection_closed(&mut self, node: &NodeId, progress: SessionProgress) -> (done:
        Maintenance)
        ensures
            final(self).decided(old(self).session.connector.session, progress, done),
            final(self).self_node_id == old(self).self_node_id,
            final(self).snapshot == old(self).snapshot,
            final(self).connected@ == old(self).connected@.remove(*node),
            final(self).session.connector.migration == old(self).session.connector.migration,
            final(self).well_formed(),
            old(self).connector_is_current() ==> final(self).connector_is_current(),
    {
        self.connected.remove(node);
        self.do_maintain(progress)
    }

    /// Maintains the session: tells which session has to be started, if one has.
    pub fn maintain_session(&mut self) -> (request: Option<StartRequest>)
        requires
            old(self).well_formed(),
        ensures
            match request {
                Some(request) => old(self).session_action == Some(SessionAction::Start) && request@
                    == start_request(old(self).snapshot@),
                None => old(self).session_action != Some(SessionAction::Start),
            },
            request is Some ==> {
                &&& request->0.migration_id == old(self).snapshot.migration->0.id
                &&& request->0.current_set@ == old(self).snapshot.current_set@.dom()
                &&& request->0.migration_set@ == old(self).snapshot.migration->0.set@.dom()
            },
            *final(self) == *old(self),
    {
        match self.session_action {
            Some(action) => self.session.maintain(action, &self.snapshot),
            None => None,
        }
    }

    /// Maintains the connections: tells which nodes of the snapshot to connect to, if the
    /// connections have to change.
    pub fn maintain_connections(&mut self) -> (action: Option<ConnectionsAction>)
        ensures
            action == old(self).connections_action,
            *final(self) == *old(self),
    {
        self.connections_action
    }

    /// The connector that the sessions get.
    pub fn servers_set_change_creator_connector(&self) -> (connector:
        &ServersSetChangeSessionCreatorConnectorWithMigration<S>)
        ensures
            *connector == self.session.connector,
    {
        &self.session.connector
    }
}

} // verus!
