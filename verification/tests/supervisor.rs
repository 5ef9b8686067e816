use herdr_client::backoff::{retry_delay, INITIAL_RETRY_DELAY, MAX_RETRY_DELAY};
use herdr_client::clock::Instant;
use herdr_client::connect::{handshake_error, SshConnectOptions};
use herdr_client::endpoint::{
    ClientEndpointId, ClientEndpointStatus, ProfileId, SavedSshEndpoint,
};
use herdr_client::error::{ClientError, ErrorKind, IoError};
use herdr_client::remote::saved_ssh_failure_needs_attention;
use herdr_client::supervisor::SshSupervisors;

const SECOND: Instant = 1_000_000_000;

fn profile() -> SavedSshEndpoint {
    SavedSshEndpoint {
        id: ProfileId::new("0123456789abcdef0123456789abcdef".into()),
        label: "Build".into(),
        target: "build".into(),
        session: "agents".into(),
        enabled: true,
    }
}

fn named(id: &str, label: &str, enabled: bool) -> SavedSshEndpoint {
    SavedSshEndpoint {
        id: ProfileId::new(id.into()),
        label: label.into(),
        target: format!("{id}.example"),
        session: "main".into(),
        enabled,
    }
}

fn ssh(id: &str) -> ClientEndpointId {
    ClientEndpointId::Ssh(ProfileId::new(id.into()))
}

fn options() -> SshConnectOptions<(u16, u16)> {
    SshConnectOptions {
        cols: 120,
        rows: 40,
        cell_width_px: 9,
        cell_height_px: 18,
        pixel_geometry_exact: true,
        surface_size: (100, 38),
        endpoint_keybindings: true,
        mouse_capture: false,
    }
}

#[test]
fn retry_backoff_is_bounded() {
    assert_eq!(retry_delay(1), INITIAL_RETRY_DELAY);
    assert_eq!(retry_delay(100), MAX_RETRY_DELAY);
}

#[test]
fn handshake_network_failures_retry_but_incompatibility_needs_attention() {
    let timeout = handshake_error(ClientError::ConnectionLost(IoError::new(
        ErrorKind::TimedOut,
        "timed out".into(),
    )));
    assert_eq!(timeout.kind(), ErrorKind::TimedOut);
    assert!(!saved_ssh_failure_needs_attention(&timeout));

    let rejected = handshake_error(ClientError::HandshakeRejected {
        version: 1,
        error: "surface capability missing".into(),
    });
    assert_eq!(rejected.kind(), ErrorKind::Unsupported);
    assert!(saved_ssh_failure_needs_attention(&rejected));
}

#[test]
fn attention_stops_background_retries() {
    let now = 1_000 * SECOND;
    let mut supervisors = SshSupervisors::new(&[profile()], now);
    let endpoint_id = ClientEndpointId::Ssh(profile().id);
    let generation = 2;
    supervisors.profile_mut(&endpoint_id).unwrap().generation = Some(generation);
    supervisors.record_status(
        &endpoint_id,
        generation,
        ClientEndpointStatus::Attention,
        now,
    );
    let state = supervisors.profile(&endpoint_id).unwrap();
    assert!(state.next_attempt.is_none());
    assert!(!state.in_flight);
}

#[test]
fn stale_generation_status_does_not_change_reconnect_state() {
    let now = 1_000 * SECOND;
    let mut supervisors = SshSupervisors::new(&[profile()], now);
    let endpoint_id = ClientEndpointId::Ssh(profile().id);
    let state = supervisors.profile_mut(&endpoint_id).unwrap();
    state.generation = Some(4);
    state.in_flight = true;

    assert!(!supervisors.record_status(&endpoint_id, 3, ClientEndpointStatus::Attention, now));
    let state = supervisors.profile(&endpoint_id).unwrap();
    assert!(state.in_flight);
    assert_eq!(state.generation, Some(4));
}

#[test]
fn disconnect_schedules_a_bounded_noninteractive_retry() {
    let now = 1_000 * SECOND;
    let mut supervisors = SshSupervisors::new(&[profile()], now);
    let endpoint_id = ClientEndpointId::Ssh(profile().id);
    supervisors.disconnected(&endpoint_id, now);
    let state = supervisors.profile(&endpoint_id).unwrap();
    assert_eq!(state.next_attempt, Some(now + INITIAL_RETRY_DELAY));
}

#[test]
fn retry_delays_double_up_to_the_cap() {
    let millis: Vec<u128> = (0..9).map(|attempt| retry_delay(attempt) / 1_000_000).collect();
    assert_eq!(millis, vec![500, 500, 1_000, 2_000, 4_000, 8_000, 16_000, 30_000, 30_000]);
    assert_eq!(retry_delay(u32::MAX), MAX_RETRY_DELAY);
}

#[test]
fn only_enabled_profiles_are_supervised() {
    let now = 5 * SECOND;
    let supervisors =
        SshSupervisors::new(&[named("a", "A", true), named("b", "B", false)], now);
    let state = supervisors.profile(&ssh("a")).unwrap();
    assert_eq!(state.profile, named("a", "A", true));
    assert_eq!(state.attempts, 0);
    assert_eq!(state.next_attempt, Some(now));
    assert!(!state.in_flight);
    assert_eq!(state.generation, None);
    assert!(supervisors.profile(&ssh("b")).is_none());
    assert!(supervisors.profile(&ClientEndpointId::Local).is_none());
}

#[test]
fn the_last_enabled_profile_with_an_identifier_counts() {
    let supervisors = SshSupervisors::new(
        &[named("a", "first", true), named("a", "second", true), named("a", "third", false)],
        0,
    );
    assert_eq!(supervisors.profile(&ssh("a")).unwrap().profile.label, "second");
}

#[test]
fn due_profiles_start_once_with_consecutive_generations() {
    let now = 7 * SECOND;
    let mut supervisors = SshSupervisors::new(
        &[named("a", "A", true), named("b", "B", true), named("c", "C", true)],
        now,
    );
    assert!(supervisors.spawn_due(now - 1, options()).is_empty());

    supervisors.disconnected(&ssh("b"), now);
    let tasks = supervisors.spawn_due(now, options());
    let started: Vec<(ClientEndpointId, u64)> =
        tasks.iter().map(|task| (task.endpoint_id.clone(), task.generation)).collect();
    assert_eq!(started, vec![(ssh("a"), 2), (ssh("c"), 3)]);
    assert_eq!(tasks[0].profile, named("a", "A", true));
    assert_eq!(tasks[1].options, options());

    assert!(supervisors.spawn_due(now, options()).is_empty());
    assert!(supervisors.spawn_due(now - 1, options()).is_empty());
    let later = supervisors.spawn_due(now + INITIAL_RETRY_DELAY, options());
    assert_eq!(later.len(), 1);
    assert_eq!(later[0].endpoint_id, ssh("b"));
    assert_eq!(later[0].generation, 4);
    let state = supervisors.profile(&ssh("b")).unwrap();
    assert!(state.in_flight);
    assert_eq!(state.next_attempt, None);
    assert_eq!(state.generation, Some(4));
    assert_eq!(state.attempts, 1);
}

#[test]
fn online_resets_the_backoff() {
    let mut supervisors = SshSupervisors::new(&[named("a", "A", true)], 0);
    let id = ssh("a");
    let mut now: Instant = 0;
    for expected in [1u32, 2, 3] {
        let task = supervisors.spawn_due(now, options()).pop().unwrap();
        assert!(supervisors.record_status(
            &id,
            task.generation,
            ClientEndpointStatus::Reconnecting,
            now
        ));
        let state = supervisors.profile(&id).unwrap();
        assert_eq!(state.attempts, expected);
        assert_eq!(state.next_attempt, Some(now + retry_delay(expected)));
        now = state.next_attempt.unwrap();
    }
    let task = supervisors.spawn_due(now, options()).pop().unwrap();
    assert!(supervisors.record_status(&id, task.generation, ClientEndpointStatus::Online, now));
    let state = supervisors.profile(&id).unwrap();
    assert_eq!(state.attempts, 0);
    assert_eq!(state.next_attempt, None);
    assert!(supervisors.spawn_due(now + 1_000 * SECOND, options()).is_empty());

    supervisors.disconnected(&id, now);
    let state = supervisors.profile(&id).unwrap();
    assert_eq!(state.attempts, 1);
    assert_eq!(state.next_attempt, Some(now + INITIAL_RETRY_DELAY));
}

#[test]
fn attention_and_disabled_keep_the_failure_count() {
    for status in [ClientEndpointStatus::Attention, ClientEndpointStatus::Disabled] {
        let mut supervisors = SshSupervisors::new(&[named("a", "A", true)], 0);
        let id = ssh("a");
        supervisors.disconnected(&id, 0);
        let generation = supervisors.spawn_due(SECOND, options())[0].generation;
        assert!(supervisors.record_status(&id, generation, status, SECOND));
        let state = supervisors.profile(&id).unwrap();
        assert_eq!(state.attempts, 1);
        assert_eq!(state.next_attempt, None);
        for later in [2, 20, 200, 2_000] {
            assert!(supervisors.spawn_due(later * SECOND, options()).is_empty());
        }
    }
}

#[test]
fn connecting_is_retried_like_reconnecting() {
    let mut supervisors = SshSupervisors::new(&[named("a", "A", true)], 0);
    let id = ssh("a");
    let generation = supervisors.spawn_due(0, options())[0].generation;
    assert!(supervisors.record_status(&id, generation, ClientEndpointStatus::Connecting, SECOND));
    let state = supervisors.profile(&id).unwrap();
    assert_eq!(state.attempts, 1);
    assert_eq!(state.next_attempt, Some(SECOND + INITIAL_RETRY_DELAY));
}

#[test]
fn a_new_attempt_outdates_the_old_one() {
    let mut supervisors = SshSupervisors::new(&[named("a", "A", true)], 0);
    let id = ssh("a");
    let first = supervisors.spawn_due(0, options())[0].generation;
    supervisors.disconnected(&id, 0);
    let second = supervisors.spawn_due(SECOND, options())[0].generation;
    assert!(first < second);
    assert!(!supervisors.record_status(&id, first, ClientEndpointStatus::Online, SECOND));
    assert!(supervisors.profile(&id).unwrap().in_flight);
    assert!(supervisors.record_status(&id, second, ClientEndpointStatus::Online, SECOND));
}

#[test]
fn unknown_endpoints_are_ignored() {
    let mut supervisors = SshSupervisors::new(&[named("a", "A", true)], 0);
    assert!(!supervisors.record_status(&ssh("x"), 2, ClientEndpointStatus::Online, 0));
    supervisors.disconnected(&ClientEndpointId::Local, 0);
    assert_eq!(supervisors.profile(&ssh("a")).unwrap().attempts, 0);
}

#[test]
fn failures_are_counted_up_to_the_largest_number() {
    let mut supervisors = SshSupervisors::new(&[named("a", "A", true)], 0);
    supervisors.profile_mut(&ssh("a")).unwrap().attempts = u32::MAX;
    supervisors.disconnected(&ssh("a"), 0);
    let state = supervisors.profile(&ssh("a")).unwrap();
    assert_eq!(state.attempts, u32::MAX);
    assert_eq!(state.next_attempt, Some(MAX_RETRY_DELAY));
}

#[test]
fn endpoints_do_not_disturb_each_other() {
    let mut supervisors =
        SshSupervisors::new(&[named("a", "A", true), named("b", "B", true)], 0);
    let tasks = supervisors.spawn_due(0, options());
    supervisors.disconnected(&ssh("a"), SECOND);
    assert!(!supervisors.record_status(
        &ssh("b"),
        tasks[0].generation,
        ClientEndpointStatus::Online,
        SECOND
    ));
    let state = supervisors.profile(&ssh("b")).unwrap();
    assert!(state.in_flight);
    assert_eq!(state.attempts, 0);
    assert_eq!(state.generation, Some(tasks[1].generation));
    assert_ne!(tasks[0].generation, tasks[1].generation);
}

#[test]
fn broken_connections_add_up() {
    let mut supervisors =
        SshSupervisors::new(&[named("a", "A", true), named("b", "B", true)], 0);
    let id = ssh("a");
    supervisors.disconnected(&id, 0);
    supervisors.disconnected(&id, 0);
    supervisors.spawn_due(100 * SECOND, options());
    supervisors.spawn_due(200 * SECOND, options());
    supervisors.disconnected(&ssh("b"), 200 * SECOND);
    supervisors.disconnected(&id, 200 * SECOND);
    let state = supervisors.profile(&id).unwrap();
    assert_eq!(state.attempts, 3);
    assert_eq!(state.next_attempt, Some(202 * SECOND));
}
