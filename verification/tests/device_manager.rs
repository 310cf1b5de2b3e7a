use sonos_scrobbler::device_manager::ConnectionState;
use sonos_scrobbler::device_manager::CurrentTrack;
use sonos_scrobbler::device_manager::DeviceManager;
use sonos_scrobbler::device_manager::HealthStep;
use sonos_scrobbler::device_manager::RediscoveryStep;
use sonos_scrobbler::device_manager::MAX_RETRIES;
use sonos_scrobbler::device_manager::REDISCOVERY_RESPONSE_TIMEOUT;
use sonos_scrobbler::device_manager::REDISCOVERY_SEARCH_TIMEOUT;
use sonos_scrobbler::device_manager::RETRY_DELAY_SECS;
use sonos_scrobbler::discovery::discover_sonos_devices;
use sonos_scrobbler::discovery::DiscoveryError;
use sonos_scrobbler::discovery::SonosDevice;
use sonos_scrobbler::discovery::SpeakerInfo;
use sonos_scrobbler::monitor::health_report;
use sonos_scrobbler::monitor::plan_tick;
use sonos_scrobbler::monitor::TickPlan;

fn unreachable_probe() -> Result<(), String> {
    Err("Failed to ping device".to_string())
}

fn device(ip_addr: &str, room_name: &str) -> SonosDevice {
    SonosDevice {
        ip_addr: ip_addr.to_string(),
        room_name: room_name.to_string(),
        model_name: "ZPS1".to_string(),
    }
}

fn rediscover() -> HealthStep {
    HealthStep::Rediscover {
        search_timeout: REDISCOVERY_SEARCH_TIMEOUT,
        response_timeout: REDISCOVERY_RESPONSE_TIMEOUT,
    }
}

#[test]
fn test_connection_failure() {
    let mut device_manager = DeviceManager::new("127.0.0.1:1234".to_string(), "Test Room".to_string());

    let result = device_manager.connect(Err("Internal error".to_string()));
    assert!(result.is_err());
    assert!(matches!(device_manager.state(), ConnectionState::Disconnected));
}

#[test]
fn test_reconnection_success() {
    let mut device_manager = DeviceManager::new("127.0.0.1:1234".to_string(), "Test Room".to_string());

    let initial_result = device_manager.connect(unreachable_probe());
    assert!(initial_result.is_err());

    let reconnect_result = device_manager.check_connection(Ok(()));
    assert!(reconnect_result.is_healthy());
    assert!(matches!(device_manager.state(), ConnectionState::Connected));
}

#[test]
fn new_manager_is_disconnected_with_a_full_budget() {
    let manager = DeviceManager::new("10.0.0.5".to_string(), "Kitchen".to_string());
    assert_eq!(manager.state(), ConnectionState::Disconnected);
    assert_eq!(manager.retry_count(), 0);
    assert_eq!(manager.max_retries(), MAX_RETRIES);
    assert_eq!(manager.max_retries(), 5);
    assert_eq!(manager.ip_addr(), "10.0.0.5");
    assert_eq!(manager.room_name(), "Kitchen");
    assert!(!manager.has_speaker());
    assert!(!manager.budget_exhausted());
    assert_eq!(manager.probe_url(), "http://10.0.0.5:1400/status/info");
}

#[test]
fn connect_hands_back_the_probe_error() {
    let mut manager = DeviceManager::new("10.0.0.5".to_string(), "Kitchen".to_string());
    assert_eq!(manager.connect(Err("no route".to_string())), Err("no route".to_string()));
    assert_eq!(manager.state(), ConnectionState::Disconnected);
    assert_eq!(manager.connect(Ok(())), Ok(()));
    assert_eq!(manager.state(), ConnectionState::Connected);
    assert_eq!(manager.retry_count(), 0);
    assert!(!manager.has_speaker());
    manager.attach_speaker();
    assert!(manager.has_speaker());
    assert_eq!(manager.state(), ConnectionState::Connected);
}

#[test]
fn failed_probe_counts_and_asks_for_rediscovery() {
    let mut manager = DeviceManager::new("10.0.0.5".to_string(), "Kitchen".to_string());
    manager.connect(Ok(())).unwrap();
    assert_eq!(manager.check_connection(unreachable_probe()), rediscover());
    assert_eq!(manager.state(), ConnectionState::Reconnecting);
    assert_eq!(manager.retry_count(), 1);
    assert_eq!(manager.handle_connection_failure(), rediscover());
    assert_eq!(manager.retry_count(), 2);
    assert_eq!(manager.state(), ConnectionState::Reconnecting);
    assert_eq!(REDISCOVERY_SEARCH_TIMEOUT, 30000);
    assert_eq!(REDISCOVERY_RESPONSE_TIMEOUT, 10000);
}

#[test]
fn healthy_probe_resets_the_retry_count() {
    let mut manager = DeviceManager::new("10.0.0.5".to_string(), "Kitchen".to_string());
    manager.connect(Ok(())).unwrap();
    manager.check_connection(unreachable_probe());
    manager.check_connection(unreachable_probe());
    assert_eq!(manager.retry_count(), 2);
    assert_eq!(manager.check_connection(Ok(())), HealthStep::Healthy);
    assert_eq!(manager.state(), ConnectionState::Connected);
    assert_eq!(manager.retry_count(), 0);
    assert_eq!(manager.check_connection(Ok(())), HealthStep::Healthy);
    assert_eq!(manager.retry_count(), 0);
}

#[test]
fn four_failures_exhaust_a_budget_of_three() {
    let mut manager =
        DeviceManager::with_max_retries("10.0.0.5".to_string(), "Kitchen".to_string(), 3);
    manager.connect(Ok(())).unwrap();
    for expected in 1..=3u32 {
        assert_eq!(manager.check_connection(unreachable_probe()), rediscover());
        assert_eq!(manager.retry_count(), expected);
        assert_eq!(manager.state(), ConnectionState::Reconnecting);
        assert!(!manager.budget_exhausted());
    }
    assert_eq!(manager.check_connection(unreachable_probe()), HealthStep::GiveUp);
    assert_eq!(manager.state(), ConnectionState::Disconnected);
    assert_eq!(manager.retry_count(), 4);
    assert!(manager.budget_exhausted());
    assert_eq!(plan_tick(&manager, false), TickPlan::Stop);

    for expected in 5..=7u32 {
        let step = manager.check_connection(unreachable_probe());
        assert_eq!(step, HealthStep::GiveUp);
        assert!(!step.is_healthy());
        assert!(!health_report(step, None));
        assert_eq!(manager.state(), ConnectionState::Disconnected);
        assert_eq!(manager.retry_count(), expected);
    }

    assert_eq!(manager.check_connection(Ok(())), HealthStep::Healthy);
    assert_eq!(manager.retry_count(), 0);
    assert_eq!(manager.state(), ConnectionState::Connected);
    assert!(!manager.budget_exhausted());
}

#[test]
fn budget_of_zero_gives_up_on_the_first_failure() {
    let mut manager =
        DeviceManager::with_max_retries("10.0.0.5".to_string(), "Kitchen".to_string(), 0);
    manager.connect(Ok(())).unwrap();
    assert_eq!(manager.check_connection(unreachable_probe()), HealthStep::GiveUp);
    assert_eq!(manager.state(), ConnectionState::Disconnected);
    assert_eq!(manager.retry_count(), 1);
}

#[test]
fn rediscovery_rebinds_the_address_and_keeps_the_count() {
    let mut manager = DeviceManager::new("10.0.0.5".to_string(), "Kitchen".to_string());
    manager.connect(Ok(())).unwrap();
    manager.check_connection(unreachable_probe());
    manager.check_connection(unreachable_probe());
    let found = Ok(vec![device("10.0.0.7", "Bedroom"), device("10.0.0.9", "Kitchen")]);
    assert_eq!(manager.handle_rediscovery(&found), RediscoveryStep::Resume);
    assert_eq!(manager.ip_addr(), "10.0.0.9");
    assert_eq!(manager.retry_count(), 2);
    assert_eq!(manager.state(), ConnectionState::Reconnecting);
    assert_eq!(manager.room_name(), "Kitchen");
    assert_eq!(manager.probe_url(), "http://10.0.0.9:1400/status/info");
}

#[test]
fn rediscovery_takes_the_first_device_of_the_room() {
    let mut manager = DeviceManager::new("10.0.0.5".to_string(), "Kitchen".to_string());
    let found = Ok(vec![
        device("10.0.0.7", "Bedroom"),
        device("10.0.0.8", "Kitchen"),
        device("10.0.0.9", "Kitchen"),
    ]);
    assert!(manager.handle_rediscovery(&found).may_continue());
    assert_eq!(manager.ip_addr(), "10.0.0.8");
}

#[test]
fn rediscovery_at_the_same_address_changes_nothing() {
    let mut manager = DeviceManager::new("10.0.0.5".to_string(), "Kitchen".to_string());
    manager.connect(Ok(())).unwrap();
    manager.check_connection(unreachable_probe());
    let found = Ok(vec![device("10.0.0.5", "Kitchen")]);
    assert_eq!(manager.handle_rediscovery(&found), RediscoveryStep::Resume);
    assert_eq!(manager.ip_addr(), "10.0.0.5");
    assert_eq!(manager.retry_count(), 1);
}

#[test]
fn rediscovery_without_the_room_backs_off() {
    let mut manager = DeviceManager::new("10.0.0.5".to_string(), "Kitchen".to_string());
    let elsewhere = Ok(vec![device("10.0.0.7", "Bedroom")]);
    let backoff = RediscoveryStep::Backoff { delay_secs: RETRY_DELAY_SECS };
    assert_eq!(manager.handle_rediscovery(&elsewhere), backoff);
    assert_eq!(manager.handle_rediscovery(&Ok(Vec::new())), backoff);
    let failed = Err(DiscoveryError { message: "socket".to_string() });
    assert_eq!(manager.handle_rediscovery(&failed), backoff);
    assert!(!backoff.may_continue());
    assert_eq!(manager.ip_addr(), "10.0.0.5");
    assert_eq!(RETRY_DELAY_SECS, 5);
}

#[test]
fn current_track_needs_a_session_and_a_title() {
    let mut manager = DeviceManager::new("10.0.0.5".to_string(), "Kitchen".to_string());
    let track = CurrentTrack { title: Some("Song".to_string()), artist: Some("Band".to_string()) };
    assert_eq!(manager.get_current_track(Ok(track.clone())), Ok(None));
    manager.connect(Ok(())).unwrap();
    manager.attach_speaker();
    assert_eq!(
        manager.get_current_track(Ok(track)),
        Ok(Some(("Band".to_string(), "Song".to_string(), None)))
    );
    let anonymous = CurrentTrack { title: Some("Song".to_string()), artist: None };
    assert_eq!(
        manager.get_current_track(Ok(anonymous)),
        Ok(Some(("Unknown Artist".to_string(), "Song".to_string(), None)))
    );
    let untitled = CurrentTrack { title: None, artist: Some("Band".to_string()) };
    assert_eq!(manager.get_current_track(Ok(untitled)), Ok(None));
    assert_eq!(manager.get_current_track(Err("timeout".to_string())), Ok(None));
}

#[test]
fn ticks_follow_the_health_check() {
    let mut manager =
        DeviceManager::with_max_retries("10.0.0.5".to_string(), "Kitchen".to_string(), 1);
    manager.connect(Ok(())).unwrap();
    assert_eq!(plan_tick(&manager, true), TickPlan::Fetch);
    let step = manager.check_connection(unreachable_probe());
    let after = manager.handle_rediscovery(&Ok(Vec::new()));
    assert!(!health_report(step, Some(after)));
    assert_eq!(plan_tick(&manager, false), TickPlan::Skip);
    let found = manager.handle_rediscovery(&Ok(vec![device("10.0.0.6", "Kitchen")]));
    assert!(health_report(step, Some(found)));
    assert!(health_report(HealthStep::Healthy, None));
    assert!(!health_report(rediscover(), None));
    assert_eq!(manager.check_connection(unreachable_probe()), HealthStep::GiveUp);
    assert_eq!(plan_tick(&manager, false), TickPlan::Stop);
}

#[test]
fn discovered_speakers_become_devices() {
    let found = Ok(vec![
        SpeakerInfo {
            ip_addr: "192.168.1.100".to_string(),
            friendly_name: "192.168.1.100 - Sonos One".to_string(),
            room_name: "Living Room".to_string(),
            model: "ZPS1".to_string(),
        },
        SpeakerInfo {
            ip_addr: "192.168.1.101".to_string(),
            friendly_name: "192.168.1.101 - Sonos Five".to_string(),
            room_name: "Office".to_string(),
            model: "ZPS5".to_string(),
        },
    ]);
    let devices = discover_sonos_devices(found).unwrap();
    assert_eq!(
        devices,
        vec![
            SonosDevice {
                ip_addr: "192.168.1.100".to_string(),
                room_name: "Living Room".to_string(),
                model_name: "ZPS1".to_string(),
            },
            SonosDevice {
                ip_addr: "192.168.1.101".to_string(),
                room_name: "Office".to_string(),
                model_name: "ZPS5".to_string(),
            },
        ]
    );
    assert_eq!(discover_sonos_devices(Ok(Vec::new())), Ok(Vec::new()));
    assert_eq!(
        discover_sonos_devices(Err("no socket".to_string())),
        Err(DiscoveryError { message: "Failed to discover devices: no socket".to_string() })
    );
}

fn edge(from: ConnectionState, to: ConnectionState) -> bool {
    matches!(
        (from, to),
        (ConnectionState::Disconnected, ConnectionState::Connected)
            | (ConnectionState::Connected, ConnectionState::Reconnecting)
            | (ConnectionState::Reconnecting, ConnectionState::Connected)
            | (ConnectionState::Reconnecting, ConnectionState::Disconnected)
    )
}

#[test]
fn states_move_along_the_edges() {
    let mut manager =
        DeviceManager::with_max_retries("10.0.0.5".to_string(), "Kitchen".to_string(), 2);
    let mut seen = vec![manager.state()];
    manager.connect(Ok(())).unwrap();
    seen.push(manager.state());
    let probes = [false, true, true, false, false, true, false, false];
    for reachable in probes {
        let probe = if reachable { Ok(()) } else { unreachable_probe() };
        let step = manager.check_connection(probe);
        if let HealthStep::Rediscover { .. } = step {
            manager.handle_rediscovery(&Ok(vec![device("10.0.0.6", "Kitchen")]));
        }
        seen.push(manager.state());
    }
    assert_eq!(
        seen,
        vec![
            ConnectionState::Disconnected,
            ConnectionState::Connected,
            ConnectionState::Reconnecting,
            ConnectionState::Connected,
            ConnectionState::Connected,
            ConnectionState::Reconnecting,
            ConnectionState::Reconnecting,
            ConnectionState::Connected,
            ConnectionState::Reconnecting,
            ConnectionState::Reconnecting,
        ]
    );
    for pair in seen.windows(2) {
        assert!(pair[0] == pair[1] || edge(pair[0], pair[1]));
    }
    assert_eq!(manager.check_connection(unreachable_probe()), HealthStep::GiveUp);
    assert_eq!(manager.state(), ConnectionState::Disconnected);
    assert!(edge(ConnectionState::Reconnecting, manager.state()));
}

#[test]
fn failed_probe_on_a_new_manager_starts_reconnecting() {
    let mut manager = DeviceManager::new("10.0.0.5".to_string(), "Kitchen".to_string());
    assert_eq!(manager.state(), ConnectionState::Disconnected);
    assert_eq!(manager.check_connection(unreachable_probe()), rediscover());
    assert_eq!(manager.state(), ConnectionState::Reconnecting);
    assert_eq!(manager.retry_count(), 1);
}
