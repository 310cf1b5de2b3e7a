use sonos_scrobbler::detector::ChangeDetector;
use sonos_scrobbler::detector::Verdict;
use sonos_scrobbler::device_manager::ConnectionState;
use sonos_scrobbler::device_manager::DeviceManager;
use sonos_scrobbler::device_manager::HealthStep;
use sonos_scrobbler::device_manager::RediscoveryStep;
use sonos_scrobbler::discovery::discover_sonos_devices;
use sonos_scrobbler::discovery::SpeakerInfo;
use sonos_scrobbler::monitor::health_report;
use sonos_scrobbler::monitor::plan_tick;
use sonos_scrobbler::monitor::snapshot_of;
use sonos_scrobbler::monitor::TickPlan;
use sonos_scrobbler::sonos::base_url;
use sonos_scrobbler::sonos::database::TrackDatabase;
use sonos_scrobbler::sonos::position_info_request;
use sonos_scrobbler::sonos::PositionInfo;

fn answer(title: &str) -> Result<PositionInfo, String> {
    Ok(PositionInfo {
        track_meta_data: format!(
            "<DIDL-Lite><dc:title>{}</dc:title><dc:creator>Band</dc:creator></DIDL-Lite>",
            title
        ),
        rel_time: "0:00:30".to_string(),
        track_duration: "0:03:30".to_string(),
    })
}

fn found_at(ip_addr: &str) -> Result<Vec<SpeakerInfo>, String> {
    Ok(vec![SpeakerInfo {
        ip_addr: ip_addr.to_string(),
        friendly_name: format!("{} - Sonos One - RINCON_A", ip_addr),
        room_name: "Den".to_string(),
        model: "ZPS1".to_string(),
    }])
}

fn failed_probe() -> Result<(), String> {
    Err("timed out".to_string())
}

#[test]
fn outage_with_a_new_address_does_not_report_the_track_again() {
    let mut manager = DeviceManager::new("10.0.0.2".to_string(), "Den".to_string());
    let mut detector = ChangeDetector::new("Den".to_string());
    let mut log = TrackDatabase::new();
    let mut emitted = 0;

    manager.connect(Ok(())).unwrap();
    manager.attach_speaker();

    for now in [0i64, 5, 10] {
        let health = manager.check_connection(Ok(()));
        assert_eq!(plan_tick(&manager, health_report(health, None)), TickPlan::Fetch);
        let snapshot = snapshot_of(answer("Song")).unwrap();
        if detector.process(&snapshot, &mut log, now).unwrap().is_new_play() {
            emitted += 1;
        }
    }
    assert_eq!(emitted, 1);
    assert_eq!(log.len(), 1);

    for expected in 1..=2u32 {
        let health = manager.check_connection(failed_probe());
        assert!(matches!(health, HealthStep::Rediscover { .. }));
        let found = discover_sonos_devices(Ok(Vec::new()));
        let after = manager.handle_rediscovery(&found);
        assert_eq!(after, RediscoveryStep::Backoff { delay_secs: 5 });
        assert_eq!(plan_tick(&manager, health_report(health, Some(after))), TickPlan::Skip);
        assert_eq!(manager.retry_count(), expected);
        assert_eq!(manager.state(), ConnectionState::Reconnecting);
    }

    let health = manager.check_connection(failed_probe());
    let found = discover_sonos_devices(found_at("10.0.0.77"));
    let after = manager.handle_rediscovery(&found);
    assert_eq!(after, RediscoveryStep::Resume);
    assert_eq!(manager.ip_addr(), "10.0.0.77");
    assert_eq!(manager.retry_count(), 3);
    assert_eq!(plan_tick(&manager, health_report(health, Some(after))), TickPlan::Fetch);
    assert_eq!(
        position_info_request(&base_url(manager.ip_addr())).url,
        "http://10.0.0.77:1400/MediaRenderer/AVTransport/Control"
    );
    assert_eq!(manager.probe_url(), "http://10.0.0.77:1400/status/info");

    let snapshot = snapshot_of(answer("Song")).unwrap();
    assert_eq!(detector.process(&snapshot, &mut log, 40), Ok(Verdict::Unchanged));

    assert_eq!(manager.check_connection(Ok(())), HealthStep::Healthy);
    assert_eq!(manager.state(), ConnectionState::Connected);
    assert_eq!(manager.retry_count(), 0);
    let snapshot = snapshot_of(answer("Song")).unwrap();
    assert_eq!(detector.process(&snapshot, &mut log, 45), Ok(Verdict::Unchanged));
    assert_eq!(log.len(), 1);

    let snapshot = snapshot_of(answer("Next")).unwrap();
    assert_eq!(detector.process(&snapshot, &mut log, 50), Ok(Verdict::Emit));
    assert_eq!(log.get_last_track("Den"), Some("Band - Next".to_string()));
    assert_eq!(log.len(), 2);
}

#[test]
fn failed_fetch_does_not_stop_the_loop() {
    let mut manager = DeviceManager::new("10.0.0.2".to_string(), "Den".to_string());
    let mut detector = ChangeDetector::new("Den".to_string());
    let mut log = TrackDatabase::new();
    manager.connect(Ok(())).unwrap();

    let health = manager.check_connection(Ok(()));
    assert_eq!(plan_tick(&manager, health_report(health, None)), TickPlan::Fetch);
    assert!(snapshot_of(Err("envelope".to_string())).is_none());
    assert_eq!(manager.state(), ConnectionState::Connected);

    let health = manager.check_connection(Ok(()));
    assert_eq!(plan_tick(&manager, health_report(health, None)), TickPlan::Fetch);
    let snapshot = snapshot_of(answer("Song")).unwrap();
    assert_eq!(detector.process(&snapshot, &mut log, 5), Ok(Verdict::Emit));
}
