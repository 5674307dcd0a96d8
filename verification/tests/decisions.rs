//! What a node decides, state by state.

use key_server_migration::decision::maintain_connections;
use key_server_migration::decision::maintain_session;
use key_server_migration::decision::select_master_node;
use key_server_migration::decision::ConnectionsAction;
use key_server_migration::decision::SessionAction;
use key_server_migration::hash::H256;
use key_server_migration::node::NodeAddress;
use key_server_migration::node::NodeId;
use key_server_migration::node_map::NodeMap;
use key_server_migration::node_set::NodeSet;
use key_server_migration::snapshot::KeyServerSetMigration;
use key_server_migration::snapshot::KeyServerSetSnapshot;
use key_server_migration::state::migration_state;
use key_server_migration::state::MigrationState;
use key_server_migration::state::SessionState;

fn node(value: u64) -> NodeId {
    let mut bytes = [0u8; 64];
    bytes[56..].copy_from_slice(&value.to_be_bytes());
    NodeId { bytes }
}

fn id(value: u64) -> H256 {
    let mut bytes = [0u8; 32];
    bytes[24..].copy_from_slice(&value.to_be_bytes());
    H256 { bytes }
}

fn address(text: &str) -> NodeAddress {
    let (ip, port) = text.split_once(':').unwrap();
    let ip = ip.split('.').fold(0u32, |ip, part| (ip << 8) | part.parse::<u32>().unwrap());
    NodeAddress::V4(ip, port.parse().unwrap())
}

fn nodes(entries: &[(u64, &str)]) -> NodeMap {
    let mut map = NodeMap::new();
    for (value, text) in entries {
        map.insert(node(*value), address(text));
    }
    map
}

fn node_set(values: &[u64]) -> NodeSet {
    let mut set = NodeSet::new();
    for value in values {
        set.insert(node(*value));
    }
    set
}

#[test]
fn migration_state_is_idle_when_required_but_this_node_is_not_on_the_list() {
    assert_eq!(migration_state(&node(1), &KeyServerSetSnapshot {
        current_set: nodes(&[(2, "127.0.0.1:8081")]),
        new_set: nodes(&[(3, "127.0.0.1:8081")]),
        migration: None,
    }), MigrationState::Idle);
}

#[test]
fn migration_state_is_idle_when_sets_are_equal() {
    assert_eq!(migration_state(&node(1), &KeyServerSetSnapshot {
        current_set: nodes(&[(1, "127.0.0.1:8081")]),
        new_set: nodes(&[(1, "127.0.0.1:8081")]),
        migration: None,
    }), MigrationState::Idle);
}

#[test]
fn migration_state_is_idle_when_only_address_changes() {
    assert_eq!(migration_state(&node(1), &KeyServerSetSnapshot {
        current_set: nodes(&[(1, "127.0.0.1:8080")]),
        new_set: nodes(&[(1, "127.0.0.1:8081")]),
        migration: None,
    }), MigrationState::Idle);
}

#[test]
fn migration_state_is_required_when_node_is_added() {
    assert_eq!(migration_state(&node(1), &KeyServerSetSnapshot {
        current_set: nodes(&[(1, "127.0.0.1:8080")]),
        new_set: nodes(&[(1, "127.0.0.1:8080"), (2, "127.0.0.1:8081")]),
        migration: None,
    }), MigrationState::Required);
}

#[test]
fn migration_state_is_required_when_node_is_removed() {
    assert_eq!(migration_state(&node(1), &KeyServerSetSnapshot {
        current_set: nodes(&[(1, "127.0.0.1:8080"), (2, "127.0.0.1:8081")]),
        new_set: nodes(&[(1, "127.0.0.1:8080")]),
        migration: None,
    }), MigrationState::Required);
}

#[test]
fn migration_state_is_started_when_migration_is_some() {
    assert_eq!(migration_state(&node(1), &KeyServerSetSnapshot {
        current_set: nodes(&[(1, "127.0.0.1:8080")]),
        new_set: Default::default(),
        migration: Some(KeyServerSetMigration {
            id: Default::default(),
            set: Default::default(),
            master: Default::default(),
            is_confirmed: Default::default(),
        }),
    }), MigrationState::Started);
}

#[test]
fn existing_master_is_selected_when_migration_has_started() {
    assert_eq!(select_master_node(&KeyServerSetSnapshot {
        current_set: nodes(&[(1, "127.0.0.1:8180")]),
        new_set: nodes(&[(2, "127.0.0.1:8181")]),
        migration: Some(KeyServerSetMigration {
            master: node(3),
            ..Default::default()
        }),
    }), Some(&node(3)));
}

#[test]
fn persistent_master_is_selected_when_migration_has_not_started_yet() {
    assert_eq!(select_master_node(&KeyServerSetSnapshot {
        current_set: nodes(&[(1, "127.0.0.1:8180"), (2, "127.0.0.1:8180")]),
        new_set: nodes(&[(2, "127.0.0.1:8181"), (4, "127.0.0.1:8181")]),
        migration: None,
    }), Some(&node(2)));
}

#[test]
fn new_master_is_selected_in_worst_case() {
    assert_eq!(select_master_node(&KeyServerSetSnapshot {
        current_set: nodes(&[(1, "127.0.0.1:8180"), (2, "127.0.0.1:8180")]),
        new_set: nodes(&[(3, "127.0.0.1:8181"), (4, "127.0.0.1:8181")]),
        migration: None,
    }), Some(&node(3)));
}

#[test]
fn maintain_connections_returns_none_when_session_is_active() {
    assert_eq!(maintain_connections(MigrationState::Required,
        SessionState::Active(Default::default())), None);
}

#[test]
fn maintain_connections_connects_to_current_set_when_no_migration() {
    assert_eq!(maintain_connections(MigrationState::Idle,
        SessionState::Idle), Some(ConnectionsAction::ConnectToCurrentSet));
}

#[test]
fn maintain_connections_connects_to_current_and_old_set_when_migration_is_required() {
    assert_eq!(maintain_connections(MigrationState::Required,
        SessionState::Idle), Some(ConnectionsAction::ConnectToCurrentAndMigrationSet));
}

#[test]
fn maintain_connections_connects_to_current_and_old_set_when_migration_is_started() {
    assert_eq!(maintain_connections(MigrationState::Started,
        SessionState::Idle), Some(ConnectionsAction::ConnectToCurrentAndMigrationSet));
}

#[test]
fn maintain_sessions_does_nothing_if_no_session_and_no_migration() {
    assert_eq!(maintain_session(&node(1), &Default::default(), &Default::default(),
        MigrationState::Idle, SessionState::Idle), None);
}

#[test]
fn maintain_session_does_nothing_when_migration_required_on_slave_node_and_no_session() {
    assert_eq!(maintain_session(&node(2), &node_set(&[2]), &KeyServerSetSnapshot {
        current_set: nodes(&[(1, "127.0.0.1:8181")]),
        new_set: nodes(&[(1, "127.0.0.1:8181"), (2, "127.0.0.1:8181")]),
        migration: None,
    }, MigrationState::Required, SessionState::Idle), None);
}

#[test]
fn maintain_session_does_nothing_when_migration_started_on_slave_node_and_no_session() {
    assert_eq!(maintain_session(&node(2), &node_set(&[2]), &KeyServerSetSnapshot {
        current_set: nodes(&[(1, "127.0.0.1:8181")]),
        new_set: Default::default(),
        migration: Some(KeyServerSetMigration {
            master: node(1),
            set: nodes(&[(1, "127.0.0.1:8181"), (2, "127.0.0.1:8181")]),
            ..Default::default()
        }),
    }, MigrationState::Started, SessionState::Idle), None);
}

#[test]
fn maintain_session_does_nothing_when_migration_started_on_master_node_and_no_session_and_not_connected_to_current_nodes() {
    assert_eq!(maintain_session(&node(1), &Default::default(), &KeyServerSetSnapshot {
        current_set: nodes(&[(1, "127.0.0.1:8181"), (2, "127.0.0.1:8181")]),
        new_set: Default::default(),
        migration: Some(KeyServerSetMigration {
            master: node(1),
            set: nodes(&[(1, "127.0.0.1:8181")]),
            ..Default::default()
        }),
    }, MigrationState::Started, SessionState::Idle), None);
}

#[test]
fn maintain_session_does_nothing_when_migration_started_on_master_node_and_no_session_and_not_connected_to_migration_nodes() {
    assert_eq!(maintain_session(&node(1), &Default::default(), &KeyServerSetSnapshot {
        current_set: nodes(&[(1, "127.0.0.1:8181")]),
        new_set: Default::default(),
        migration: Some(KeyServerSetMigration {
            master: node(1),
            set: nodes(&[(1, "127.0.0.1:8181"), (2, "127.0.0.1:8181")]),
            ..Default::default()
        }),
    }, MigrationState::Started, SessionState::Idle), None);
}

#[test]
fn maintain_session_starts_session_when_migration_started_on_master_node_and_no_session() {
    assert_eq!(maintain_session(&node(1), &node_set(&[2]), &KeyServerSetSnapshot {
        current_set: nodes(&[(1, "127.0.0.1:8181")]),
        new_set: Default::default(),
        migration: Some(KeyServerSetMigration {
            master: node(1),
            set: nodes(&[(1, "127.0.0.1:8181"), (2, "127.0.0.1:8181")]),
            ..Default::default()
        }),
    }, MigrationState::Started, SessionState::Idle), Some(SessionAction::Start));
}

#[test]
fn maintain_session_does_nothing_when_both_migration_and_session_are_started() {
    assert_eq!(maintain_session(&node(1), &node_set(&[2]), &KeyServerSetSnapshot {
        current_set: nodes(&[(1, "127.0.0.1:8181")]),
        new_set: Default::default(),
        migration: Some(KeyServerSetMigration {
            master: node(1),
            set: nodes(&[(1, "127.0.0.1:8181"), (2, "127.0.0.1:8181")]),
            ..Default::default()
        }),
    }, MigrationState::Started, SessionState::Active(Default::default())), None);
}

#[test]
fn maintain_session_confirms_migration_when_active_and_session_has_finished_on_new_node() {
    assert_eq!(maintain_session(&node(1), &node_set(&[2]), &KeyServerSetSnapshot {
        current_set: nodes(&[(1, "127.0.0.1:8181")]),
        new_set: Default::default(),
        migration: Some(KeyServerSetMigration {
            master: node(1),
            set: nodes(&[(1, "127.0.0.1:8181"), (2, "127.0.0.1:8181")]),
            ..Default::default()
        }),
    }, MigrationState::Started, SessionState::Finished(Default::default())), Some(SessionAction::ConfirmAndDrop(Default::default())));
}

#[test]
fn maintain_session_drops_session_when_active_and_session_has_finished_on_removed_node() {
    assert_eq!(maintain_session(&node(1), &node_set(&[2]), &KeyServerSetSnapshot {
        current_set: nodes(&[(1, "127.0.0.1:8181"), (2, "127.0.0.1:8181")]),
        new_set: Default::default(),
        migration: Some(KeyServerSetMigration {
            master: node(2),
            set: nodes(&[(2, "127.0.0.1:8181")]),
            ..Default::default()
        }),
    }, MigrationState::Started, SessionState::Finished(Default::default())), Some(SessionAction::Drop));
}

#[test]
fn maintain_session_drops_session_when_active_and_session_has_failed() {
    assert_eq!(maintain_session(&node(1), &node_set(&[2]), &KeyServerSetSnapshot {
        current_set: nodes(&[(1, "127.0.0.1:8181")]),
        new_set: Default::default(),
        migration: Some(KeyServerSetMigration {
            master: node(1),
            set: nodes(&[(1, "127.0.0.1:8181"), (2, "127.0.0.1:8181")]),
            ..Default::default()
        }),
    }, MigrationState::Started, SessionState::Failed(Default::default())), Some(SessionAction::Drop));
}

#[test]
fn maintain_session_detects_abnormal_when_no_migration_and_active_session() {
    assert_eq!(maintain_session(&Default::default(), &Default::default(), &Default::default(),
        MigrationState::Idle, SessionState::Active(Default::default())), Some(SessionAction::DropAndRetry));
}

#[test]
fn maintain_session_detects_abnormal_when_no_migration_and_finished_session() {
    assert_eq!(maintain_session(&Default::default(), &Default::default(), &Default::default(),
        MigrationState::Idle, SessionState::Finished(Default::default())), Some(SessionAction::DropAndRetry));
}

#[test]
fn maintain_session_detects_abnormal_when_no_migration_and_failed_session() {
    assert_eq!(maintain_session(&Default::default(), &Default::default(), &Default::default(),
        MigrationState::Idle, SessionState::Failed(Default::default())), Some(SessionAction::DropAndRetry));
}

#[test]
fn maintain_session_detects_abnormal_when_required_migration_and_active_session() {
    assert_eq!(maintain_session(&Default::default(), &Default::default(), &Default::default(),
        MigrationState::Required, SessionState::Active(Default::default())), Some(SessionAction::DropAndRetry));
}

#[test]
fn maintain_session_detects_abnormal_when_required_migration_and_finished_session() {
    assert_eq!(maintain_session(&Default::default(), &Default::default(), &Default::default(),
        MigrationState::Required, SessionState::Finished(Default::default())), Some(SessionAction::DropAndRetry));
}

#[test]
fn maintain_session_detects_abnormal_when_required_migration_and_failed_session() {
    assert_eq!(maintain_session(&Default::default(), &Default::default(), &Default::default(),
        MigrationState::Required, SessionState::Failed(Default::default())), Some(SessionAction::DropAndRetry));
}

#[test]
fn maintain_session_detects_abnormal_when_active_migration_and_active_session_with_different_id() {
    assert_eq!(maintain_session(&Default::default(), &Default::default(), &KeyServerSetSnapshot {
        migration: Some(KeyServerSetMigration {
            id: id(0),
            ..Default::default()
        }),
        ..Default::default()
    }, MigrationState::Started, SessionState::Active(Some(id(1)))), Some(SessionAction::DropAndRetry));
}

#[test]
fn maintain_session_detects_abnormal_when_active_migration_and_finished_session_with_different_id() {
    assert_eq!(maintain_session(&Default::default(), &Default::default(), &KeyServerSetSnapshot {
        migration: Some(KeyServerSetMigration {
            id: id(0),
            ..Default::default()
        }),
        ..Default::default()
    }, MigrationState::Started, SessionState::Finished(Some(id(1)))), Some(SessionAction::DropAndRetry));
}

#[test]
fn maintain_session_detects_abnormal_when_active_migration_and_failed_session_with_different_id() {
    assert_eq!(maintain_session(&Default::default(), &Default::default(), &KeyServerSetSnapshot {
        migration: Some(KeyServerSetMigration {
            id: id(0),
            ..Default::default()
        }),
        ..Default::default()
    }, MigrationState::Started, SessionState::Failed(Some(id(1)))), Some(SessionAction::DropAndRetry));
}
