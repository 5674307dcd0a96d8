//! The trigger at work, with its connector and its session.

use key_server_migration::connector::Error;
use key_server_migration::connector::ServersSetChangeSessionCreatorConnectorWithMigration;
use key_server_migration::decision::is_connected_to_all_nodes;
use key_server_migration::decision::maintain_session;
use key_server_migration::decision::maintain_session_with_id;
use key_server_migration::decision::select_master_node;
use key_server_migration::decision::ConnectionsAction;
use key_server_migration::decision::SessionAction;
use key_server_migration::hash::H256;
use key_server_migration::node::NodeAddress;
use key_server_migration::node::NodeId;
use key_server_migration::node_map::NodeMap;
use key_server_migration::node_set::NodeSet;
use key_server_migration::session::advance_start;
use key_server_migration::session::nodes_to_sign;
use key_server_migration::session::KeyServerSetCall;
use key_server_migration::session::NewSession;
use key_server_migration::session::Processed;
use key_server_migration::session::StartRequest;
use key_server_migration::session::StartStep;
use key_server_migration::snapshot::KeyServerSetMigration;
use key_server_migration::snapshot::KeyServerSetSnapshot;
use key_server_migration::state::migration_state;
use key_server_migration::state::observe;
use key_server_migration::state::session_state;
use key_server_migration::state::start_observation;
use key_server_migration::state::AdminSession;
use key_server_migration::state::MigrationState;
use key_server_migration::state::Observation;
use key_server_migration::state::ServersSetChangeSession;
use key_server_migration::state::SessionProgress;
use key_server_migration::state::SessionState;
use key_server_migration::trigger::ConnectionTriggerWithMigration;
use key_server_migration::trigger::Maintain;
use key_server_migration::trigger::Maintenance;
use std::sync::Arc;

type Trigger = ConnectionTriggerWithMigration<&'static str>;
type Connector = ServersSetChangeSessionCreatorConnectorWithMigration<&'static str>;

fn node(value: u64) -> NodeId {
    let mut bytes = [0u8; 64];
    bytes[56..].copy_from_slice(&value.to_be_bytes());
    NodeId { bytes }
}

fn id(value: u64) -> H256 {
    let mut bytes = [0u8; 32];
    bytes[24..].copy_from_slice(&value.to_be_bytes());
    H256 { bytes }
}

fn nodes_at(values: &[u64], port: u16) -> NodeMap {
    let mut map = NodeMap::new();
    for value in values {
        map.insert(node(*value), NodeAddress::V4(0x7f000001, port));
    }
    map
}

fn nodes(values: &[u64]) -> NodeMap {
    nodes_at(values, 8080)
}

fn node_set(values: &[u64]) -> NodeSet {
    let mut set = NodeSet::new();
    for value in values {
        set.insert(node(*value));
    }
    set
}

fn required(current: &[u64], new: &[u64]) -> KeyServerSetSnapshot {
    KeyServerSetSnapshot { current_set: nodes(current), new_set: nodes(new), migration: None }
}

fn started(current: &[u64], migration_id: u64, set: &[u64], master: u64) -> KeyServerSetSnapshot {
    KeyServerSetSnapshot {
        current_set: nodes(current),
        new_set: nodes(set),
        migration: Some(KeyServerSetMigration {
            id: id(migration_id),
            set: nodes(set),
            master: node(master),
            is_confirmed: false,
        }),
    }
}

/// A servers set change session.
fn change(migration_id: Option<H256>) -> Arc<AdminSession<&'static str>> {
    Arc::new(AdminSession::ServersSetChange(ServersSetChangeSession {
        migration_id,
        running: "session",
    }))
}

/// A trigger whose connector holds a servers set change session.
fn holding(snapshot: KeyServerSetSnapshot, this: u64, migration_id: Option<H256>) -> Trigger {
    let mut trigger = Trigger::new(snapshot, node(this));
    trigger.session.connector.set_key_servers_set_change_session(change(migration_id));
    trigger
}

/// The progress of a session that is not there.
const NONE: SessionProgress = SessionProgress::Running;

fn plain(maintain: Option<Maintain>) -> Maintenance {
    Maintenance { maintain, call: None, suspicious: None }
}

#[test]
fn new_trigger_has_nothing_to_do() {
    let mut trigger = Trigger::new(started(&[1], 5, &[1, 2], 1), node(1));
    assert_eq!(trigger.self_node_id, node(1));
    assert_eq!(trigger.snapshot, started(&[1], 5, &[1, 2], 1));
    assert_eq!(trigger.session_action, None);
    assert_eq!(trigger.connections_action, None);
    assert_eq!(trigger.connected, NodeSet::new());
    assert_eq!(trigger.maintain_session(), None);
    assert_eq!(trigger.maintain_connections(), None);
    assert_eq!(trigger.servers_set_change_creator_connector().session, None);
    assert_eq!(
        trigger.servers_set_change_creator_connector().migration,
        started(&[1], 5, &[1, 2], 1).migration
    );
}

#[test]
fn master_starts_a_required_migration_with_a_random_id() {
    let mut drawn = Vec::new();
    for _ in 0..2 {
        let mut trigger = Trigger::new(required(&[1, 2], &[2, 3]), node(2));
        let done = trigger.do_maintain(NONE);
        let migration_id = match done.call {
            Some(KeyServerSetCall::StartMigration(migration_id)) => migration_id,
            other => panic!("unexpected call: {:?}", other),
        };
        assert_eq!(done.maintain, Some(Maintain::Connections));
        assert_eq!(done.suspicious, None);
        assert_eq!(trigger.session_action, Some(SessionAction::StartMigration(migration_id)));
        assert_eq!(trigger.maintain_session(), None);
        assert_eq!(
            trigger.maintain_connections(),
            Some(ConnectionsAction::ConnectToCurrentAndMigrationSet)
        );
        drawn.push(migration_id);
    }
    assert_ne!(drawn[0], drawn[1]);
    assert_ne!(drawn[0], H256::zero());
}

#[test]
fn given_id_goes_to_the_migration_that_is_started() {
    let snapshot = required(&[1, 2], &[2, 3]);
    let decide = |this: u64| {
        maintain_session_with_id(
            &node(this),
            &NodeSet::new(),
            &snapshot,
            MigrationState::Required,
            SessionState::Idle,
            id(77),
        )
    };
    assert_eq!(decide(2), Some(SessionAction::StartMigration(id(77))));
    assert_eq!(decide(1), None);
    assert_eq!(decide(3), None);
}

#[test]
fn other_nodes_wait_for_the_master() {
    let mut trigger = Trigger::new(required(&[1, 2], &[2, 3]), node(1));
    assert_eq!(
        trigger.do_maintain(NONE),
        plain(Some(Maintain::Connections))
    );
    assert_eq!(trigger.session_action, None);
}

#[test]
fn outsider_only_keeps_its_connections() {
    let mut trigger = Trigger::new(started(&[1], 5, &[1, 2], 9), node(9));
    assert_eq!(
        trigger.do_maintain(NONE),
        plain(Some(Maintain::Connections))
    );
    assert_eq!(trigger.maintain_connections(), Some(ConnectionsAction::ConnectToCurrentSet));
}

#[test]
fn session_starts_once_all_nodes_are_connected() {
    let mut trigger = Trigger::new(KeyServerSetSnapshot::default(), node(1));
    let snapshot = started(&[1, 2], 5, &[1, 3], 1);
    assert_eq!(trigger.on_maintain(snapshot.clone(), NONE).maintain, Some(Maintain::Connections));
    assert_eq!(trigger.snapshot, snapshot);
    let done = trigger.on_connection_established(&node(2), NONE);
    assert_eq!(done.maintain, Some(Maintain::Connections));
    assert_eq!(trigger.maintain_session(), None);
    let done = trigger.on_connection_established(&node(3), NONE);
    assert_eq!(
        done,
        plain(Some(Maintain::SessionAndConnections))
    );
    assert_eq!(
        trigger.maintain_session(),
        Some(StartRequest {
            migration_id: id(5),
            current_set: node_set(&[1, 2]),
            migration_set: node_set(&[1, 3]),
        })
    );
    // one more connection changes nothing
    let done = trigger.on_connection_established(&node(8), NONE);
    assert_eq!(done.maintain, Some(Maintain::SessionAndConnections));
    // a closed one that is needed does
    let done = trigger.on_connection_closed(&node(2), NONE);
    assert_eq!(done.maintain, Some(Maintain::Connections));
    assert_eq!(trigger.connected, node_set(&[3, 8]));
    assert_eq!(trigger.maintain_session(), None);
}

#[test]
fn closing_a_connection_undoes_establishing_it() {
    let mut trigger = Trigger::new(started(&[1, 2], 5, &[1, 2], 1), node(1));
    let before = trigger.do_maintain(NONE);
    trigger.on_connection_established(&node(2), NONE);
    assert_eq!(trigger.session_action, Some(SessionAction::Start));
    assert_eq!(trigger.on_connection_closed(&node(2), NONE), before);
    assert_eq!(trigger.session_action, None);
    assert_eq!(trigger.connected, NodeSet::new());
}

#[test]
fn connections_rest_while_the_session_runs() {
    let mut trigger = holding(started(&[1], 5, &[1, 2], 1), 1, Some(id(5)));
    assert_eq!(trigger.do_maintain(SessionProgress::Running), plain(None));
    assert_eq!(trigger.maintain_connections(), None);
    assert_eq!(trigger.maintain_session(), None);
    assert_eq!(trigger.session.connector.session, Some(change(Some(id(5)))));
}

#[test]
fn finished_session_is_confirmed_and_forgotten() {
    let mut trigger = holding(started(&[1], 5, &[1, 2], 1), 2, Some(id(5)));
    assert_eq!(
        trigger.do_maintain(SessionProgress::Succeeded),
        Maintenance {
            maintain: Some(Maintain::Connections),
            call: Some(KeyServerSetCall::ConfirmMigration(id(5))),
            suspicious: None,
        }
    );
    assert_eq!(trigger.session.connector.session, None);
}

#[test]
fn finished_session_is_only_forgotten_by_a_node_that_leaves() {
    let mut trigger = holding(started(&[1, 2], 5, &[2], 2), 1, Some(id(5)));
    assert_eq!(
        trigger.do_maintain(SessionProgress::Succeeded),
        plain(Some(Maintain::Connections))
    );
    assert_eq!(trigger.session_action, Some(SessionAction::Drop));
    assert_eq!(trigger.session.connector.session, None);
}

#[test]
fn failed_session_is_forgotten_and_started_again_later() {
    let mut trigger = holding(started(&[1], 5, &[1], 1), 1, Some(id(5)));
    assert_eq!(trigger.do_maintain(SessionProgress::Failed), plain(Some(Maintain::Connections)));
    assert_eq!(trigger.session.connector.session, None);
    assert_eq!(trigger.do_maintain(NONE).maintain, Some(Maintain::SessionAndConnections));
}

#[test]
fn obsolete_session_is_forgotten_and_does_not_count() {
    let all = [SessionProgress::Running, SessionProgress::Succeeded, SessionProgress::Failed];
    for progress in all {
        let state = |id| session_state(&Some(change(id)), progress);
        // the session is one of another migration
        let mut trigger = holding(started(&[1], 5, &[1], 1), 1, Some(id(4)));
        assert_eq!(
            trigger.do_maintain(progress),
            Maintenance {
                maintain: Some(Maintain::SessionAndConnections),
                call: None,
                suspicious: Some((MigrationState::Started, state(Some(id(4))))),
            }
        );
        assert_eq!(trigger.session_action, Some(SessionAction::Start));
        assert_eq!(trigger.session.connector.session, None);
        // no migration is required
        let mut trigger = holding(required(&[1], &[1]), 1, None);
        assert_eq!(
            trigger.do_maintain(progress),
            Maintenance {
                maintain: Some(Maintain::Connections),
                call: None,
                suspicious: Some((MigrationState::Idle, state(None))),
            }
        );
        assert_eq!(trigger.session_action, None);
        assert_eq!(trigger.session.connector.session, None);
        // a migration is required, and has not started yet
        let mut trigger = holding(required(&[1], &[1, 2]), 1, Some(id(4)));
        let done = trigger.do_maintain(progress);
        assert!(matches!(done.call, Some(KeyServerSetCall::StartMigration(_))));
        assert_eq!(done.suspicious, Some((MigrationState::Required, state(Some(id(4))))));
        assert_eq!(trigger.session.connector.session, None);
    }
}

#[test]
fn session_of_another_kind_is_left_alone() {
    let mut trigger = Trigger::new(required(&[1], &[1]), node(1));
    let other = Arc::new(AdminSession::Other("session"));
    trigger.session.connector.set_key_servers_set_change_session(other.clone());
    assert_eq!(
        trigger.do_maintain(SessionProgress::Succeeded),
        plain(Some(Maintain::Connections))
    );
    assert_eq!(trigger.session.connector.session, Some(other));
}

#[test]
fn last_stored_session_is_the_one_acted_on() {
    let mut trigger = holding(started(&[1], 5, &[1, 2], 1), 1, Some(id(4)));
    let migration = trigger.session.connector.migration.clone();
    trigger.session.connector.set_key_servers_set_change_session(change(Some(id(5))));
    assert_eq!(trigger.session.connector.session, Some(change(Some(id(5)))));
    assert_eq!(trigger.session.connector.migration, migration);
    assert_eq!(
        trigger.do_maintain(SessionProgress::Succeeded).call,
        Some(KeyServerSetCall::ConfirmMigration(id(5)))
    );
}

#[test]
fn session_state_follows_the_session() {
    let state = session_state::<&str>;
    assert_eq!(state(&None, SessionProgress::Succeeded), SessionState::Idle);
    assert_eq!(
        state(&Some(Arc::new(AdminSession::Other("session"))), SessionProgress::Failed),
        SessionState::Idle
    );
    assert_eq!(
        state(&Some(change(Some(id(1)))), SessionProgress::Running),
        SessionState::Active(Some(id(1)))
    );
    assert_eq!(
        state(&Some(change(Some(id(2)))), SessionProgress::Succeeded),
        SessionState::Finished(Some(id(2)))
    );
    assert_eq!(state(&Some(change(None)), SessionProgress::Failed), SessionState::Failed(None));
}

#[test]
fn only_a_finished_session_is_waited_for() {
    let known = Observation::Known;
    assert_eq!(start_observation(&Some(change(None))), Observation::AskFinished);
    assert_eq!(
        start_observation(&Some(Arc::new(AdminSession::Other("session")))),
        known(SessionProgress::Running)
    );
    assert_eq!(start_observation::<&str>(&None), known(SessionProgress::Running));
    assert_eq!(observe(Observation::AskFinished, false), known(SessionProgress::Running));
    assert_eq!(observe(Observation::AskFinished, true), Observation::AskOutcome);
    assert_eq!(observe(Observation::AskOutcome, true), known(SessionProgress::Succeeded));
    assert_eq!(observe(Observation::AskOutcome, false), known(SessionProgress::Failed));
    assert_eq!(
        observe(known(SessionProgress::Failed), true),
        known(SessionProgress::Failed)
    );
}

#[test]
fn session_without_a_migration_id_counts_as_that_of_the_zero_id() {
    let snapshot = started(&[1], 0, &[1], 1);
    let decide = |state| {
        maintain_session(&node(1), &NodeSet::new(), &snapshot, MigrationState::Started, state)
    };
    assert_eq!(decide(SessionState::Active(None)), None);
    assert_eq!(decide(SessionState::Active(Some(id(0)))), None);
    assert_eq!(
        decide(SessionState::Finished(None)),
        Some(SessionAction::ConfirmAndDrop(H256::zero()))
    );
    assert_eq!(decide(SessionState::Active(Some(id(1)))), Some(SessionAction::DropAndRetry));
}

#[test]
fn missing_connection_settles_the_start_before_the_migration_is_looked_at() {
    assert_eq!(
        maintain_session(
            &node(1),
            &NodeSet::new(),
            &required(&[1, 2], &[]),
            MigrationState::Started,
            SessionState::Idle,
        ),
        None
    );
}

#[test]
fn migration_set_alone_makes_a_node_take_part() {
    assert_eq!(migration_state(&node(2), &started(&[1], 5, &[2], 1)), MigrationState::Started);
    assert_eq!(migration_state(&node(2), &required(&[1], &[2])), MigrationState::Idle);
}

#[test]
fn addresses_do_not_matter() {
    let moved = KeyServerSetSnapshot {
        current_set: nodes_at(&[1, 2], 1),
        new_set: nodes_at(&[2, 3], 2),
        migration: None,
    };
    let snapshot = required(&[1, 2], &[2, 3]);
    assert_eq!(migration_state(&node(1), &moved), migration_state(&node(1), &snapshot));
    assert_eq!(select_master_node(&moved), select_master_node(&snapshot));
}

#[test]
fn one_node_leads() {
    let snapshot = required(&[1, 2, 3], &[2, 3, 4]);
    let leaders: Vec<u64> = (0..6)
        .filter(|this| {
            let mut trigger = Trigger::new(snapshot.clone(), node(*this));
            trigger.do_maintain(NONE).call.is_some()
        })
        .collect();
    assert_eq!(leaders, vec![2]);
}

#[test]
fn there_is_no_master_for_an_empty_set() {
    assert_eq!(select_master_node(&required(&[1, 2], &[])), None);
    assert_eq!(select_master_node(&required(&[], &[4, 3])), Some(&node(3)));
    assert_eq!(select_master_node(&required(&[], &[])), None);
}

#[test]
fn node_need_not_be_connected_to_itself() {
    assert!(is_connected_to_all_nodes(&node(1), &nodes(&[1]), &NodeSet::new()));
    assert!(is_connected_to_all_nodes(&node(1), &nodes(&[]), &NodeSet::new()));
    assert!(!is_connected_to_all_nodes(&node(1), &nodes(&[1, 2]), &NodeSet::new()));
    assert!(is_connected_to_all_nodes(&node(1), &nodes(&[1, 2]), &node_set(&[2, 3])));
    assert!(!is_connected_to_all_nodes(&node(1), &nodes(&[1, 2, 4]), &node_set(&[2, 3])));
}

#[test]
fn only_the_master_of_the_migration_is_admitted() {
    let snapshot = started(&[1], 5, &[1, 2], 7);
    let connector = Connector { migration: snapshot.migration.clone(), session: None };
    assert_eq!(connector.admin_public(Some(&id(5)), node_set(&[2, 1])), Ok(node(7)));
    assert_eq!(connector.admin_public(Some(&id(6)), node_set(&[1, 2])), Err(Error::AccessDenied));
    assert_eq!(connector.admin_public(None, node_set(&[1, 2])), Err(Error::AccessDenied));
    assert_eq!(connector.admin_public(Some(&id(5)), node_set(&[1])), Err(Error::AccessDenied));
    assert_eq!(
        connector.admin_public(Some(&id(5)), node_set(&[1, 2, 3])),
        Err(Error::AccessDenied)
    );
    assert_eq!(
        Connector::default().admin_public(Some(&id(0)), node_set(&[])),
        Err(Error::AccessDenied)
    );
    assert_eq!(Connector::default().session, None);
}

#[test]
fn started_session_is_admitted() {
    let snapshot = started(&[1], 5, &[1, 2], 1);
    let mut master = Trigger::new(snapshot.clone(), node(1));
    master.on_connection_established(&node(2), NONE);
    let request = master.maintain_session().unwrap();
    let other = Trigger::new(snapshot, node(2));
    assert_eq!(
        other
            .servers_set_change_creator_connector()
            .admin_public(Some(&request.migration_id), request.migration_set),
        Ok(node(1))
    );
}

#[test]
fn connector_answers_for_the_migration_that_was_learned_of_last() {
    let mut trigger = Trigger::new(required(&[1], &[1, 2]), node(1));
    let ask = |trigger: &Trigger, migration_id, set: &[u64]| {
        trigger
            .servers_set_change_creator_connector()
            .admin_public(Some(&id(migration_id)), node_set(set))
    };
    assert_eq!(ask(&trigger, 5, &[1, 2]), Err(Error::AccessDenied));
    trigger.on_maintain(started(&[1], 5, &[1, 2], 1), NONE);
    assert_eq!(ask(&trigger, 5, &[1, 2]), Ok(node(1)));
    trigger.on_connection_established(&node(2), NONE);
    assert_eq!(ask(&trigger, 5, &[1, 2]), Ok(node(1)));
    trigger.on_maintain(started(&[1, 2], 6, &[2], 2), NONE);
    assert_eq!(ask(&trigger, 5, &[1, 2]), Err(Error::AccessDenied));
    assert_eq!(ask(&trigger, 6, &[2]), Ok(node(2)));
    trigger.on_maintain(required(&[2], &[2]), NONE);
    assert_eq!(ask(&trigger, 6, &[2]), Err(Error::AccessDenied));
}

#[test]
fn each_action_is_processed_in_its_way() {
    let start = KeyServerSetCall::StartMigration(id(1));
    let confirm = KeyServerSetCall::ConfirmMigration(id(2));
    let actions = [
        (SessionAction::StartMigration(id(1)), Some(start), false, false),
        (SessionAction::Start, None, true, false),
        (SessionAction::ConfirmAndDrop(id(2)), Some(confirm), false, true),
        (SessionAction::Drop, None, false, true),
        (SessionAction::DropAndRetry, None, false, true),
    ];
    for (action, call, maintain_required, forgets) in actions {
        let mut trigger = holding(started(&[1], 5, &[2], 1), 1, Some(id(5)));
        let migration = trigger.session.connector.migration.clone();
        assert_eq!(trigger.session.process(action), Processed { call, maintain_required });
        assert_eq!(trigger.session.connector.session.is_none(), forgets);
        assert_eq!(trigger.session.connector.migration, migration);
    }
}

#[test]
fn only_the_start_is_left_to_maintain() {
    let snapshot = started(&[1], 5, &[2], 1);
    let mut trigger = Trigger::new(KeyServerSetSnapshot::default(), node(1));
    assert_eq!(
        trigger.session.maintain(SessionAction::Start, &snapshot),
        Some(StartRequest {
            migration_id: id(5),
            current_set: node_set(&[1]),
            migration_set: node_set(&[2]),
        })
    );
    assert_eq!(trigger.session.maintain(SessionAction::Drop, &snapshot), None);
    assert_eq!(
        trigger.session.maintain(SessionAction::StartMigration(id(5)), &snapshot),
        None
    );
}

#[test]
fn session_needs_both_signatures() {
    type Step = StartStep<&'static str, &'static str>;
    let request = || StartRequest {
        migration_id: id(5),
        current_set: node_set(&[1]),
        migration_set: node_set(&[2]),
    };
    let first: Step = advance_start(StartStep::SignCurrentSet(request()), Ok("current"));
    assert_eq!(first, StartStep::SignMigrationSet(request(), "current"));
    assert_eq!(
        advance_start(first, Ok("migration")),
        StartStep::CreateSession(NewSession {
            migration_id: id(5),
            migration_set: node_set(&[2]),
            current_set_signature: "current",
            migration_set_signature: "migration",
        })
    );
    let failed: Step = advance_start(StartStep::SignCurrentSet(request()), Err("no key"));
    assert_eq!(failed, StartStep::Failed("no key"));
    assert_eq!(advance_start(failed, Ok("migration")), StartStep::Failed("no key"));
    let step: Step = StartStep::SignMigrationSet(request(), "current");
    assert_eq!(advance_start(step, Err("no key")), StartStep::Failed("no key"));
}

#[test]
fn session_carries_the_signatures_of_its_sets() {
    let request = StartRequest {
        migration_id: id(5),
        current_set: node_set(&[2, 1]),
        migration_set: node_set(&[3]),
    };
    let mut step: StartStep<Vec<NodeId>, ()> = StartStep::SignCurrentSet(request);
    let mut signed = Vec::new();
    while let Some(nodes) = nodes_to_sign(&step) {
        let signature = nodes.nodes().clone();
        signed.push(signature.clone());
        step = advance_start(step, Ok(signature));
    }
    assert_eq!(signed, vec![vec![node(1), node(2)], vec![node(3)]]);
    assert_eq!(
        step,
        StartStep::CreateSession(NewSession {
            migration_id: id(5),
            migration_set: node_set(&[3]),
            current_set_signature: vec![node(1), node(2)],
            migration_set_signature: vec![node(3)],
        })
    );
    let failed: StartStep<(), &str> = StartStep::Failed("no key");
    assert_eq!(nodes_to_sign(&failed), None);
}
