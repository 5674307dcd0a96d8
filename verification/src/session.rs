//! The migration session: what becomes of it, and how it is started.

use crate::connector::ServersSetChangeSessionCreatorConnectorWithMigration;
use crate::decision::SessionAction;
use crate::hash::H256;
use crate::node::NodeId;
use crate::node_set::NodeSet;
use crate::snapshot::KeyServerSetSnapshot;
use crate::snapshot::SnapshotModel;
use vstd::prelude::*;

verus! {

/// A call that the set of key servers has to get.
#[derive(Debug, Clone, Copy, PartialEq, Eq)]
pub enum KeyServerSetCall {
    /// Start the migration with the given identifier.
    StartMigration(H256),
    /// Confirm the migration with the given identifier.
    ConfirmMigration(H256),
}

/// What processing a session action comes to.
#[derive(Debug, Clone, Copy, PartialEq, Eq)]
pub struct Processed {
    /// The call to make, if there is one.
    pub call: Option<KeyServerSetCall>,
    /// Is there more to do about the session?
    pub maintain_required: bool,
}

/// The two sets of nodes that a migration session is about.
///
/// The node signs the hash of each set, and asks the cluster for the session with both
/// signatures.
#[derive(Debug, PartialEq, Eq)]
pub struct StartRequest {
    /// Identifier of the migration.
    pub migration_id: H256,
    /// Nodes that make up the cluster now.
    pub current_set: NodeSet,
    /// Nodes that the cluster migrates to.
    pub migration_set: NodeSet,
}

/// Mathematical model of a start request.
pub struct StartModel {
    pub migration_id: H256,
    pub current_set: Set<NodeId>,
    pub migration_set: Set<NodeId>,
}

/// A session to ask the cluster for. `G` is a signature.
#[derive(Debug, PartialEq, Eq)]
pub struct NewSession<G> {
    /// Identifier of the migration.
    pub migration_id: H256,
    /// Nodes that the cluster migrates to.
    pub migration_set: NodeSet,
    /// Signature of the hash of the current set.
    pub current_set_signature: G,
    /// Signature of the hash of the migration set.
    pub migration_set_signature: G,
}

/// How far the start of a session has come. `G` is a signature, `E` tells why signing failed.
#[derive(Debug, PartialEq, Eq)]
pub enum StartStep<G, E> {
    /// The hash of the current set is to be signed.
    SignCurrentSet(StartRequest),
    /// The current set is signed; the hash of the migration set is to be signed.
    SignMigrationSet(StartRequest, G),
    /// Both sets are signed; the session is to be created.
    CreateSession(NewSession<G>),
    /// Signing has failed: there will be no session.
    Failed(E),
}

impl View for StartRequest {
    type V = StartModel;

    open spec fn view(&self) -> StartModel {
        StartModel {
            migration_id: self.migration_id,
            current_set: self.current_set@,
            migration_set: self.migration_set@,
        }
    }
}

/// What processing `action` comes to.
pub open spec fn processed(action: SessionAction) -> Processed {
    Processed {
        call: match action {
            SessionAction::StartMigration(id) => Some(KeyServerSetCall::StartMigration(id)),
            SessionAction::ConfirmAndDrop(id) => Some(KeyServerSetCall::ConfirmMigration(id)),
            _ => None,
        },
        maintain_required: action is Start,
    }
}

/// The action forgets the active session.
pub open spec fn forgets_session(action: SessionAction) -> bool {
    action is ConfirmAndDrop || action is Drop || action is DropAndRetry
}

/// The request that starts the session of the migration in `snapshot`.
pub open spec fn start_request(snapshot: SnapshotModel) -> StartModel {
    StartModel {
        migration_id: snapshot.migration->0.id,
        current_set: snapshot.current_set.dom(),
        migration_set: snapshot.migration->0.set.dom(),
    }
}

/// The set whose hash has to be signed next, if there is still one to sign.
pub open spec fn set_to_sign<G, E>(step: StartStep<G, E>) -> Option<NodeSet> {
    match step {
        StartStep::SignCurrentSet(request) => Some(request.current_set),
        StartStep::SignMigrationSet(request, _) => Some(request.migration_set),
        _ => None,
    }
}

/// How the start of a session goes on once signing has come to `signature`.
pub open spec fn next_start_step<G, E>(step: StartStep<G, E>, signature: Result<G, E>) -> StartStep<
    G,
    E,
> {
    match step {
        StartStep::SignCurrentSet(request) => match signature {
            Ok(signature) => StartStep::SignMigrationSet(request, signature),
            Err(error) => StartStep::Failed(error),
        },
        StartStep::SignMigrationSet(request, current_set_signature) => match signature {
            Ok(signature) => StartStep::CreateSession(
                NewSession {
                    migration_id: request.migration_id,
                    migration_set: request.migration_set,
                    current_set_signature,
                    migration_set_signature: signature,
                },
            ),
            Err(error) => StartStep::Failed(error),
        },
        _ => step,
    }
}

/// Migration session.
#[derive(Debug, PartialEq, Eq)]
pub struct TriggerSession<S> {
    /// Servers set change session creator connector.
    pub connector: ServersSetChangeSessionCreatorConnectorWithMigration<S>,
}

impl<S> TriggerSession<S> {
    /// Process session action.
    pub fn process(&mut self, action: SessionAction) -> (done: Processed)
        ensures
            done == processed(action),
            final(self).connector.session == (if forgets_session(action) {
                None
            } else {
                old(self).connector.session
            }),
            final(self).connector.migration == old(self).connector.migration,
    {
        match action {
            SessionAction::ConfirmAndDrop(migration_id) => {
                self.connector.session = None;
                Processed {
                    call: Some(KeyServerSetCall::ConfirmMigration(migration_id)),
                    maintain_required: false,
                }
            },
            SessionAction::Drop | SessionAction::DropAndRetry => {
                self.connector.session = None;
                Processed { call: None, maintain_required: false }
            },
            SessionAction::StartMigration(migration_id) => Processed {
                call: Some(KeyServerSetCall::StartMigration(migration_id)),
                maintain_required: false,
            },
            SessionAction::Start => Processed { call: None, maintain_required: true },
        }
    }

    /// Maintain session.
    ///
    /// All actions but the start of the session have been dealt with when they were processed.
    pub fn maintain(&mut self, action: SessionAction, server_set: &KeyServerSetSnapshot) -> (request:
        Option<StartRequest>)
        requires
            action is Start ==> server_set.migration is Some,
        ensures
            match request {
                Some(request) => action is Start && request@ == start_request(server_set@),
                None => action !is Start,
            },
            request is Some ==> {
                &&& request->0.migration_id == server_set.migration->0.id
                &&& request->0.current_set@ == server_set.current_set@.dom()
                &&& request->0.migration_set@ == server_set.migration->0.set@.dom()
            },
            *final(self) == *old(self),
    {
        match (action, &server_set.migration) {
            (SessionAction::Start, Some(migration)) => Some(
                StartRequest {
                    migration_id: migration.id,
                    current_set: server_set.current_set.keys().clone(),
                    migration_set: migration.set.keys().clone(),
                },
            ),
            _ => None,
        }
    }
}

/// Tells the set whose hash has to be signed next, if there is still one to sign.
pub fn nodes_to_sign<G, E>(step: &StartStep<G, E>) -> (nodes: Option<&NodeSet>)
    ensures
        match nodes {
            Some(nodes) => set_to_sign(*step) == Some(*nodes),
            None => set_to_sign(*step) is None,
        },
{
    match step {
        StartStep::SignCurrentSet(request) => Some(&request.current_set),
        StartStep::SignMigrationSet(request, _) => Some(&request.migration_set),
        StartStep::CreateSession(_) => None,
        StartStep::Failed(_) => None,
    }
}

/// Takes the start of a session on by what signing has come to.
///
/// The migration set is signed only once the current set is, and the session is created only
/// once both are.
pub fn advance_start<G, E>(step: StartStep<G, E>, signature: Result<G, E>) -> (next: StartStep<G, E>)
    ensures
        next == next_start_step(step, signature),
{
    match step {
        StartStep::SignCurrentSet(request) => match signature {
            Ok(signature) => StartStep::SignMigrationSet(request, signature),
            Err(error) => StartStep::Failed(error),
        },
        StartStep::SignMigrationSet(request, current_set_signature) => match signature {
            Ok(signature) => StartStep::CreateSession(
                NewSession {
                    migration_id: request.migration_id,
                    migration_set: request.migration_set,
                    current_set_signature,
                    migration_set_signature: signature,
                },
            ),
            Err(error) => StartStep::Failed(error),
        },
        StartStep::CreateSession(session) => StartStep::CreateSession(session),
        StartStep::Failed(error) => StartStep::Failed(error),
    }
}

} // verus!
