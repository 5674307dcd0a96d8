//! What the trigger shares with the sessions that it starts.

use crate::hash::H256;
use crate::node::Public;
use crate::node::NodeId;
use crate::node_set::NodeSet;
use crate::snapshot::migration_model;
use crate::snapshot::KeyServerSetMigration;
use crate::snapshot::MigrationModel;
use crate::state::AdminSession;
use std::sync::Arc;
use vstd::prelude::*;

verus! {

/// Why a request is refused.
#[derive(Debug, Clone, Copy, PartialEq, Eq, Structural)]
pub enum Error {
    /// The requester has no right to what it asks for.
    AccessDenied,
}

/// Key servers set change session creator connector with migration support.
///
/// It is what the trigger shares with the sessions. `S` is a session as it runs.
#[derive(Debug, PartialEq, Eq)]
pub struct ServersSetChangeSessionCreatorConnectorWithMigration<S> {
    /// Active migration state to check when servers set change session is started.
    pub migration: Option<KeyServerSetMigration>,
    /// Active servers set change session.
    pub session: Option<Arc<AdminSession<S>>>,
}

/// The answer to a node that asks who administers the change of servers that it was asked to
/// take part in.
///
/// All nodes agree on a migration and on the set of nodes that it leads to. Only who asks for
/// that migration and for that set is told its master.
pub open spec fn admin_public_of(
    migration: Option<MigrationModel>,
    migration_id: Option<H256>,
    new_server_set: Set<NodeId>,
) -> Result<Public, Error> {
    if migration is Some && migration_id == Some(migration->0.id) && new_server_set
        == migration->0.set.dom() {
        Ok(migration->0.master)
    } else {
        Err(Error::AccessDenied)
    }
}

/// The identifier behind a reference that may be absent.
pub open spec fn pointee(id: Option<&H256>) -> Option<H256> {
    match id {
        Some(id) => Some(*id),
        None => None,
    }
}

impl<S> ServersSetChangeSessionCreatorConnectorWithMigration<S> {
    /// The connector with `session` in place of the session that it holds.
    pub open spec fn storing(self, session: Arc<AdminSession<S>>) -> Self {
        ServersSetChangeSessionCreatorConnectorWithMigration {
            migration: self.migration,
            session: Some(session),
        }
    }

    /// Tells who administers the change to `new_server_set` in the given migration.
    pub fn admin_public(&self, migration_id: Option<&H256>, new_server_set: NodeSet) -> (answer:
        Result<Public, Error>)
        ensures
            answer == admin_public_of(
                migration_model(self.migration),
                pointee(migration_id),
                new_server_set@,
            ),
            answer is Ok <==> {
                &&& self.migration is Some
                &&& migration_id is Some
                &&& *migration_id->0 == self.migration->0.id
                &&& new_server_set@ == self.migration->0.set@.dom()
            },
            answer is Ok ==> answer->Ok_0 == self.migration->0.master,
    {
        match &self.migration {
            Some(migration) => {
                let is_same = match migration_id {
                    Some(migration_id) => *migration_id == migration.id,
                    None => false,
                };
                let is_same = is_same && new_server_set.is_same(migration.set.keys());
                if is_same {
                    Ok(migration.master)
                } else {
                    Err(Error::AccessDenied)
                }
            },
            None => Err(Error::AccessDenied),
        }
    }

    /// Makes `session` the active servers set change session, in place of the one that may have
    /// been active before.
    pub fn set_key_servers_set_change_session(&mut self, session: Arc<AdminSession<S>>)
        ensures
            *final(self) == old(self).storing(session),
            final(self).session == Some(session),
            final(self).migration == old(self).migration,
    {
        self.session = Some(session);
    }
}

impl<S> Default for ServersSetChangeSessionCreatorConnectorWithMigration<S> {
    /// The default connector knows of no migration and of no session.
    fn default() -> (connector: Self)
        ensures
            connector.migration is None,
            connector.session is None,
    {
        ServersSetChangeSessionCreatorConnectorWithMigration { migration: None, session: None }
    }
}

} // verus!
