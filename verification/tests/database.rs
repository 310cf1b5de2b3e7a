use sonos_scrobbler::detector::reportable_play;
use sonos_scrobbler::detector::track_key;
use sonos_scrobbler::detector::ChangeDetector;
use sonos_scrobbler::detector::Verdict;
use sonos_scrobbler::sonos::database::window_start;
use sonos_scrobbler::sonos::database::StoreError;
use sonos_scrobbler::sonos::database::TrackDatabase;
use sonos_scrobbler::sonos::database::SUPPRESSION_WINDOW_SECS;
use sonos_scrobbler::sonos::PlaybackState;

fn snapshot(artist: Option<&str>, title: Option<&str>) -> PlaybackState {
    PlaybackState {
        title: title.map(|t| t.to_string()),
        artist: artist.map(|a| a.to_string()),
        album: None,
        position: Some("0:00:10".to_string()),
        duration: Some("0:03:00".to_string()),
    }
}

#[test]
fn test_database_operations() {
    let mut db = TrackDatabase::new();
    let now: i64 = 1_700_000_000;

    // Test logging a track
    let logged = db.log_track("Test Device", "Test Track", now).unwrap();
    assert!(logged);

    // Test getting last track
    let last_track = db.get_last_track("Test Device");
    assert_eq!(last_track, Some("Test Track".to_string()));

    // Test duplicate prevention
    let logged_again = db.log_track("Test Device", "Test Track", now).unwrap();
    assert!(!logged_again);
}

#[test]
fn repeat_is_suppressed_inside_the_window_and_logged_after_it() {
    let mut db = TrackDatabase::with_window(3600);
    assert_eq!(db.log_track("Den", "Band - Song", 0), Ok(true));
    assert_eq!(db.log_track("Den", "Band - Song", 1800), Ok(false));
    assert_eq!(db.len(), 1);
    assert_eq!(db.log_track("Den", "Band - Song", 4000), Ok(true));
    assert_eq!(db.len(), 2);
}

#[test]
fn window_ends_exactly_after_its_length() {
    let mut db = TrackDatabase::new();
    assert_eq!(SUPPRESSION_WINDOW_SECS, 3600);
    assert_eq!(db.window_secs(), 3600);
    assert_eq!(db.log_track("Den", "Song", 1000), Ok(true));
    assert_eq!(db.log_track("Den", "Song", 4599), Ok(false));
    assert_eq!(db.log_track("Den", "Song", 4600), Ok(true));
    assert_eq!(db.len(), 2);
}

#[test]
fn window_is_per_device_and_per_track() {
    let mut db = TrackDatabase::new();
    assert_eq!(db.log_track("Den", "Song", 100), Ok(true));
    assert_eq!(db.log_track("Kitchen", "Song", 100), Ok(true));
    assert_eq!(db.log_track("Den", "Other", 100), Ok(true));
    assert_eq!(db.log_track("Den", "Song", 200), Ok(false));
    assert_eq!(db.len(), 3);
    assert!(db.played_since("Den", "Song", 99));
    assert!(!db.played_since("Den", "Song", 100));
    assert!(!db.played_since("Attic", "Song", 0));
}

#[test]
fn window_of_zero_refuses_the_same_second_only() {
    let mut db = TrackDatabase::with_window(0);
    assert_eq!(db.log_track("Den", "Song", 50), Ok(true));
    assert_eq!(db.log_track("Den", "Song", 50), Err(StoreError::Duplicate));
    assert_eq!(db.len(), 1);
    assert_eq!(db.log_track("Den", "Song", 51), Ok(true));
    assert_eq!(db.log_track("Den", "Song", 49), Ok(false));
    assert_eq!(db.len(), 2);
}

#[test]
fn extreme_times_do_not_overflow() {
    let mut db = TrackDatabase::with_window(u32::MAX);
    assert_eq!(db.log_track("Den", "Song", i64::MIN), Ok(true));
    assert_eq!(db.log_track("Den", "Song", i64::MIN + 10), Ok(false));
    assert_eq!(db.log_track("Den", "Song", i64::MAX), Ok(true));
    assert_eq!(db.len(), 2);
}

#[test]
fn last_track_is_the_latest_play_of_the_device() {
    let mut db = TrackDatabase::with_window(10);
    assert_eq!(db.get_last_track("Den"), None);
    db.log_track("Den", "First", 100).unwrap();
    db.log_track("Kitchen", "Elsewhere", 900).unwrap();
    db.log_track("Den", "Late", 500).unwrap();
    db.log_track("Den", "Early", 300).unwrap();
    assert_eq!(db.get_last_track("Den"), Some("Late".to_string()));
    db.log_track("Den", "Tie", 500).unwrap();
    assert_eq!(db.get_last_track("Den"), Some("Tie".to_string()));
    assert_eq!(db.get_last_track("Kitchen"), Some("Elsewhere".to_string()));
    assert_eq!(db.get_last_track("Attic"), None);
}

#[test]
fn track_key_falls_back_on_what_is_known() {
    let artist = Some("Band".to_string());
    let title = Some("Song".to_string());
    assert_eq!(track_key(&artist, &title), "Band - Song");
    assert_eq!(track_key(&artist, &None), "Band");
    assert_eq!(track_key(&None, &title), "Song");
    assert_eq!(track_key(&None, &None), "Unknown Track");
}

#[test]
fn unchanged_track_is_reported_once() {
    let mut db = TrackDatabase::new();
    let mut detector = ChangeDetector::new("Den".to_string());
    assert_eq!(detector.last_key(), &None);
    let playing = snapshot(Some("Band"), Some("Song"));
    assert_eq!(detector.process(&playing, &mut db, 100), Ok(Verdict::Emit));
    assert_eq!(detector.last_key(), &Some("Band - Song".to_string()));
    assert_eq!(detector.process(&playing, &mut db, 105), Ok(Verdict::Unchanged));
    assert_eq!(detector.process(&playing, &mut db, 9000), Ok(Verdict::Unchanged));
    assert_eq!(db.len(), 1);
    assert!(Verdict::Emit.is_new_play());
    assert!(!Verdict::Unchanged.is_new_play());
    assert!(!Verdict::Suppressed.is_new_play());
}

#[test]
fn returning_track_is_suppressed_inside_the_window() {
    let mut db = TrackDatabase::new();
    let mut detector = ChangeDetector::new("Den".to_string());
    let first = snapshot(Some("Band"), Some("Song"));
    let other = snapshot(Some("Band"), Some("Other"));
    assert_eq!(detector.process(&first, &mut db, 0), Ok(Verdict::Emit));
    assert_eq!(detector.process(&other, &mut db, 200), Ok(Verdict::Emit));
    assert_eq!(detector.process(&first, &mut db, 1800), Ok(Verdict::Suppressed));
    assert_eq!(detector.last_key(), &Some("Band - Song".to_string()));
    assert_eq!(detector.process(&first, &mut db, 1805), Ok(Verdict::Unchanged));
    assert_eq!(detector.process(&other, &mut db, 3900), Ok(Verdict::Emit));
    assert_eq!(detector.process(&first, &mut db, 4000), Ok(Verdict::Emit));
    assert_eq!(db.len(), 4);
}

#[test]
fn restarted_detector_does_not_report_a_logged_track_again() {
    let mut db = TrackDatabase::new();
    let playing = snapshot(Some("Band"), Some("Song"));
    let mut before = ChangeDetector::new("Den".to_string());
    assert_eq!(before.process(&playing, &mut db, 1000), Ok(Verdict::Emit));
    let mut after = ChangeDetector::new("Den".to_string());
    assert_eq!(after.device_name(), "Den");
    assert_eq!(after.process(&playing, &mut db, 1600), Ok(Verdict::Suppressed));
    assert_eq!(db.len(), 1);
}

#[test]
fn untagged_snapshot_has_the_unknown_key() {
    let mut db = TrackDatabase::new();
    let mut detector = ChangeDetector::new("Den".to_string());
    let idle = snapshot(None, None);
    assert_eq!(detector.observe(&idle), Some("Unknown Track".to_string()));
    assert_eq!(detector.process(&idle, &mut db, 10), Ok(Verdict::Emit));
    assert_eq!(detector.observe(&idle), None);
    assert_eq!(db.get_last_track("Den"), Some("Unknown Track".to_string()));
}

#[test]
fn failed_store_leaves_the_detector_asking_again() {
    let mut detector = ChangeDetector::new("Den".to_string());
    let playing = snapshot(Some("Band"), Some("Song"));
    let key = detector.observe(&playing).unwrap();
    let failure = StoreError::Backend("disk full".to_string());
    assert_eq!(detector.settle(key, Err(failure.clone())), Err(failure));
    assert_eq!(detector.last_key(), &None);
    let key = detector.observe(&playing).unwrap();
    assert_eq!(key, "Band - Song");
    assert_eq!(detector.settle(key, Ok(false)), Ok(Verdict::Suppressed));
    assert_eq!(detector.observe(&playing), None);
    let other = snapshot(None, Some("Other"));
    let key = detector.observe(&other).unwrap();
    assert_eq!(detector.settle(key, Ok(true)), Ok(Verdict::Emit));
    assert_eq!(detector.last_key(), &Some("Other".to_string()));
}

#[test]
fn window_starts_its_length_before_now() {
    assert_eq!(window_start(4000, 3600), Some(400));
    assert_eq!(window_start(0, 3600), Some(-3600));
    assert_eq!(window_start(1000, 0), Some(1000));
    assert_eq!(window_start(i64::MIN + 3600, 3600), Some(i64::MIN));
    assert_eq!(window_start(i64::MIN + 3599, 3600), None);
    assert_eq!(window_start(i64::MAX, u32::MAX), Some(i64::MAX - 4_294_967_295));
}

#[test]
fn play_is_reported_with_its_title() {
    let mut full = snapshot(Some("Band"), Some("Song"));
    full.album = Some("Record".to_string());
    assert_eq!(
        reportable_play(&full),
        Some(("Band".to_string(), "Song".to_string(), Some("Record".to_string())))
    );
    assert_eq!(
        reportable_play(&snapshot(None, Some("Song"))),
        Some(("Unknown Artist".to_string(), "Song".to_string(), None))
    );
    assert_eq!(reportable_play(&snapshot(Some("Band"), None)), None);
    assert_eq!(reportable_play(&snapshot(None, None)), None);
}
