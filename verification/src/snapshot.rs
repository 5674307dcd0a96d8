//! What is known of the sets of key servers at one moment.

use crate::hash::H256;
use crate::node::NodeAddress;
use crate::node::NodeId;
use crate::node_map::NodeMap;
use vstd::prelude::*;

verus! {

/// A migration that has started.
#[derive(Debug, PartialEq, Eq)]
pub struct KeyServerSetMigration {
    /// Identifier of the migration.
    pub id: H256,
    /// Servers that the cluster migrates to.
    pub set: NodeMap,
    /// Node that starts the migration session.
    pub master: NodeId,
    /// Has this node confirmed the migration?
    pub is_confirmed: bool,
}

/// The sets of key servers at one moment.
#[derive(Debug, PartialEq, Eq)]
pub struct KeyServerSetSnapshot {
    /// Servers that make up the cluster now.
    pub current_set: NodeMap,
    /// Servers that shall make up the cluster.
    pub new_set: NodeMap,
    /// The migration that has started, if one has.
    pub migration: Option<KeyServerSetMigration>,
}

/// Mathematical model of a migration.
pub struct MigrationModel {
    pub id: H256,
    pub set: Map<NodeId, NodeAddress>,
    pub master: NodeId,
    pub is_confirmed: bool,
}

/// Mathematical model of a snapshot.
pub struct SnapshotModel {
    pub current_set: Map<NodeId, NodeAddress>,
    pub new_set: Map<NodeId, NodeAddress>,
    pub migration: Option<MigrationModel>,
}

impl View for KeyServerSetMigration {
    type V = MigrationModel;

    open spec fn view(&self) -> MigrationModel {
        MigrationModel {
            id: self.id,
            set: self.set@,
            master: self.master,
            is_confirmed: self.is_confirmed,
        }
    }
}

impl View for KeyServerSetSnapshot {
    type V = SnapshotModel;

    open spec fn view(&self) -> SnapshotModel {
        SnapshotModel {
            current_set: self.current_set@,
            new_set: self.new_set@,
            migration: migration_model(self.migration),
        }
    }
}

/// Model of a migration that may be absent.
pub open spec fn migration_model(migration: Option<KeyServerSetMigration>) -> Option<MigrationModel> {
    match migration {
        Some(migration) => Some(migration@),
        None => None,
    }
}

/// Model of the migration with all fields at their defaults.
pub open spec fn default_migration() -> MigrationModel {
    MigrationModel {
        id: H256::zero_spec(),
        set: Map::empty(),
        master: NodeId::zero_spec(),
        is_confirmed: false,
    }
}

/// Model of the snapshot that knows of no servers and no migration.
pub open spec fn empty_snapshot() -> SnapshotModel {
    SnapshotModel { current_set: Map::empty(), new_set: Map::empty(), migration: None }
}

/// Copies a migration that may be absent.
pub(crate) fn copy_migration(migration: &Option<KeyServerSetMigration>) -> (copy: Option<
    KeyServerSetMigration,
>)
    ensures
        migration_model(copy) == migration_model(*migration),
{
    match migration {
        Some(migration) => Some(migration.clone()),
        None => None,
    }
}

impl Clone for KeyServerSetMigration {
    fn clone(&self) -> (copy: KeyServerSetMigration)
        ensures
            copy@ == self@,
    {
        KeyServerSetMigration {
            id: self.id,
            set: self.set.clone(),
            master: self.master,
            is_confirmed: self.is_confirmed,
        }
    }
}

impl Clone for KeyServerSetSnapshot {
    fn clone(&self) -> (copy: KeyServerSetSnapshot)
        ensures
            copy@ == self@,
    {
        KeyServerSetSnapshot {
            current_set: self.current_set.clone(),
            new_set: self.new_set.clone(),
            migration: copy_migration(&self.migration),
        }
    }
}

impl Default for KeyServerSetMigration {
    fn default() -> (migration: KeyServerSetMigration)
        ensures
            migration@ == default_migration(),
    {
        KeyServerSetMigration {
            id: H256::zero(),
            set: NodeMap::new(),
            master: NodeId::default(),
            is_confirmed: false,
        }
    }
}

impl Default for KeyServerSetSnapshot {
    fn default() -> (snapshot: KeyServerSetSnapshot)
        ensures
            snapshot@ == empty_snapshot(),
    {
        KeyServerSetSnapshot { current_set: NodeMap::new(), new_set: NodeMap::new(), migration: None }
    }
}

} // verus!
