//! States of the migration and of its session, as one node sees them.

use crate::hash::H256;
use crate::node::NodeId;
use crate::snapshot::KeyServerSetSnapshot;
use crate::snapshot::SnapshotModel;
use std::sync::Arc;
use vstd::prelude::*;

verus! {

/// Migration state.
#[derive(Debug, Clone, Copy, PartialEq, Eq, Structural)]
pub enum MigrationState {
    /// No migration required.
    Idle,
    /// Migration is required.
    Required,
    /// Migration has started.
    Started,
}

/// Migration session state.
#[derive(Debug, Clone, Copy, PartialEq, Eq)]
pub enum SessionState {
    /// No active session.
    Idle,
    /// Session is running with given migration id.
    Active(Option<H256>),
    /// Session is completed successfully.
    Finished(Option<H256>),
    /// Session is completed with an error.
    Failed(Option<H256>),
}

/// How far a session has come.
#[derive(Debug, Clone, Copy, PartialEq, Eq, Structural)]
pub enum SessionProgress {
    /// It still runs.
    Running,
    /// It is completed successfully.
    Succeeded,
    /// It is completed with an error.
    Failed,
}

/// A session that changes the set of servers. `S` is the session as it runs.
#[derive(Debug, PartialEq, Eq)]
pub struct ServersSetChangeSession<S> {
    /// Identifier of the migration that the session is part of, if it is part of one.
    pub migration_id: Option<H256>,
    /// The session as it runs.
    pub running: S,
}

/// An administrative session. `S` is the session as it runs.
#[derive(Debug, PartialEq, Eq)]
pub enum AdminSession<S> {
    /// A session that changes the set of servers.
    ServersSetChange(ServersSetChangeSession<S>),
    /// A session of any other kind.
    Other(S),
}

/// What has to be asked of a session to learn how far it has come.
#[derive(Debug, Clone, Copy, PartialEq, Eq, Structural)]
pub enum Observation {
    /// Is it finished?
    AskFinished,
    /// Did it succeed? The session is waited for to learn that.
    AskOutcome,
    /// Nothing: this is how far it has come.
    Known(SessionProgress),
}

/// `node` is one of the current servers, or one of those that a started migration leads to.
pub open spec fn participates(node: NodeId, snapshot: SnapshotModel) -> bool {
    ||| snapshot.current_set.contains_key(node)
    ||| snapshot.migration is Some && snapshot.migration->0.set.contains_key(node)
}

/// The migration state that `node` is in.
pub open spec fn migration_state_of(node: NodeId, snapshot: SnapshotModel) -> MigrationState {
    if !participates(node, snapshot) {
        MigrationState::Idle
    } else if snapshot.migration is Some {
        MigrationState::Started
    } else if snapshot.current_set.dom() == snapshot.new_set.dom() {
        MigrationState::Idle
    } else {
        MigrationState::Required
    }
}

/// The session, if there is one, is one that changes the set of servers.
pub open spec fn is_servers_set_change<S>(session: Option<Arc<AdminSession<S>>>) -> bool {
    session is Some && *session->0 is ServersSetChange
}

/// The state of the session, if there is one, that has come as far as `progress`.
///
/// A session that does not change the set of servers counts as none, however far it has come.
pub open spec fn session_state_of<S>(
    session: Option<Arc<AdminSession<S>>>,
    progress: SessionProgress,
) -> SessionState {
    if is_servers_set_change(session) {
        let migration_id = (*session->0)->ServersSetChange_0.migration_id;
        match progress {
            SessionProgress::Running => SessionState::Active(migration_id),
            SessionProgress::Succeeded => SessionState::Finished(migration_id),
            SessionProgress::Failed => SessionState::Failed(migration_id),
        }
    } else {
        SessionState::Idle
    }
}

/// What has to be asked once the session has answered what `step` asks.
pub open spec fn next_observation(step: Observation, answer: bool) -> Observation {
    match step {
        Observation::AskFinished => if answer {
            Observation::AskOutcome
        } else {
            Observation::Known(SessionProgress::Running)
        },
        Observation::AskOutcome => Observation::Known(
            if answer {
                SessionProgress::Succeeded
            } else {
                SessionProgress::Failed
            },
        ),
        Observation::Known(progress) => Observation::Known(progress),
    }
}

/// Finds the migration state that this node is in.
pub fn migration_state(self_node_id: &NodeId, snapshot: &KeyServerSetSnapshot) -> (state:
    MigrationState)
    ensures
        state == migration_state_of(*self_node_id, snapshot@),
        state == MigrationState::Started <==> snapshot.migration is Some && (
        snapshot.current_set@.contains_key(*self_node_id)
            || snapshot.migration->0.set@.contains_key(*self_node_id)),
        state == MigrationState::Required <==> snapshot.migration is None
            && snapshot.current_set@.contains_key(*self_node_id) && snapshot.current_set@.dom()
            != snapshot.new_set@.dom(),
{
    // a node that is neither in the current set nor in the migration set takes no part
    let in_migration_set = match &snapshot.migration {
        Some(migration) => migration.set.contains_key(self_node_id),
        None => false,
    };
    if !snapshot.current_set.contains_key(self_node_id) && !in_migration_set {
        return MigrationState::Idle;
    }
    // once a migration has started no other state is possible
    if snapshot.migration.is_some() {
        return MigrationState::Started;
    }
    // a migration is required only where the set of nodes changes: where only addresses change,
    // adjusting the connections is enough
    let no_nodes_removed = snapshot.current_set.keys().is_subset(snapshot.new_set.keys());
    let no_nodes_added = snapshot.new_set.keys().is_subset(snapshot.current_set.keys());
    if no_nodes_removed && no_nodes_added {
        assert(snapshot@.current_set.dom() =~= snapshot@.new_set.dom());
        return MigrationState::Idle;
    }
    MigrationState::Required
}

/// Finds the state of the session, if there is one, that has come as far as `progress`.
pub fn session_state<S>(session: &Option<Arc<AdminSession<S>>>, progress: SessionProgress) -> (state:
    SessionState)
    ensures
        state == session_state_of(*session, progress),
{
    match session {
        Some(session) => match &**session {
            AdminSession::ServersSetChange(session) => match progress {
                SessionProgress::Running => SessionState::Active(session.migration_id),
                SessionProgress::Succeeded => SessionState::Finished(session.migration_id),
                SessionProgress::Failed => SessionState::Failed(session.migration_id),
            },
            AdminSession::Other(_) => SessionState::Idle,
        },
        None => SessionState::Idle,
    }
}

/// Tells what has to be asked first to learn how far the session has come.
///
/// Only a session that changes the set of servers is asked anything. How far another one has
/// come does not count.
pub fn start_observation<S>(session: &Option<Arc<AdminSession<S>>>) -> (step: Observation)
    ensures
        step == (if is_servers_set_change(*session) {
            Observation::AskFinished
        } else {
            Observation::Known(SessionProgress::Running)
        }),
{
    match session {
        Some(session) => match &**session {
            AdminSession::ServersSetChange(_) => Observation::AskFinished,
            AdminSession::Other(_) => Observation::Known(SessionProgress::Running),
        },
        None => Observation::Known(SessionProgress::Running),
    }
}

/// Takes the observation on by what the session has answered.
pub fn observe(step: Observation, answer: bool) -> (next: Observation)
    ensures
        next == next_observation(step, answer),
{
    match step {
        Observation::AskFinished => if answer {
            Observation::AskOutcome
        } else {
            Observation::Known(SessionProgress::Running)
        },
        Observation::AskOutcome => if answer {
            Observation::Known(SessionProgress::Succeeded)
        } else {
            Observation::Known(SessionProgress::Failed)
        },
        Observation::Known(progress) => Observation::Known(progress),
    }
}

} // verus!
