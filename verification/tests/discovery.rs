use sonos_scrobbler::discovery::DiscoveryError;
use sonos_scrobbler::discovery::SpeakerInfo;
use sonos_scrobbler::sonos::discovery::SonosDiscovery;
use sonos_scrobbler::sonos::events::rincon_id;
use sonos_scrobbler::sonos::events::text_before;
use sonos_scrobbler::sonos::events::EventSubscriber;
use sonos_scrobbler::sonos::events::SubscriberError;
use sonos_scrobbler::text::chars_of;
use sonos_scrobbler::text::find_text;
use sonos_scrobbler::text::matches_at;

fn speaker(ip_addr: &str, friendly_name: &str, room_name: &str) -> SpeakerInfo {
    SpeakerInfo {
        ip_addr: ip_addr.to_string(),
        friendly_name: friendly_name.to_string(),
        room_name: room_name.to_string(),
        model: "ZPS1".to_string(),
    }
}

#[test]
fn test_discover_devices_formats_correctly() {
    let mut devices = Vec::new();
    devices.push(SpeakerInfo {
        ip_addr: "192.168.1.100".to_string(),
        friendly_name: "Living Room".to_string(),
        room_name: "Living Room".to_string(),
        model: "ZPS1".to_string(),
    });

    let discovery = SonosDiscovery::new(Ok(devices)).unwrap();
    let result = discovery.discover_devices().unwrap();

    assert_eq!(result.len(), 1);
    assert_eq!(result[0], "Living Room, Living Room");
}

#[test]
fn failed_discovery_keeps_the_transport_message() {
    let result = SonosDiscovery::new(Err("bind failed".to_string()));
    assert_eq!(result.unwrap_err(), DiscoveryError { message: "bind failed".to_string() });
}

#[test]
fn listing_keeps_the_order_of_discovery() {
    let found = vec![
        speaker("10.0.0.2", "10.0.0.2 - Sonos One - RINCON_A", "Den"),
        speaker("10.0.0.3", "10.0.0.3 - Sonos Five - RINCON_B", "Kitchen"),
    ];
    let discovery = SonosDiscovery::new(Ok(found)).unwrap();
    assert_eq!(
        discovery.discover_devices().unwrap(),
        vec![
            "10.0.0.2 - Sonos One - RINCON_A, Den".to_string(),
            "10.0.0.3 - Sonos Five - RINCON_B, Kitchen".to_string(),
        ]
    );
    let empty = SonosDiscovery::new(Ok(Vec::new())).unwrap();
    assert_eq!(empty.discover_devices().unwrap(), Vec::<String>::new());
}

#[test]
fn identifier_is_the_third_field_up_to_the_comma() {
    assert_eq!(
        rincon_id("10.0.0.2 - Sonos One - RINCON_A1B2, Den"),
        Some("RINCON_A1B2".to_string())
    );
    assert_eq!(rincon_id("a - b - c"), Some("c".to_string()));
    assert_eq!(rincon_id("a - b - c - d, e"), Some("c".to_string()));
    assert_eq!(rincon_id("a - b - c, d - e"), Some("c".to_string()));
    assert_eq!(rincon_id("a - b - , d"), Some(String::new()));
    assert_eq!(rincon_id("a - b - "), Some(String::new()));
    assert_eq!(rincon_id(" -  - x"), Some("x".to_string()));
    assert_eq!(rincon_id("a - b"), None);
    assert_eq!(rincon_id("a - - b"), None);
    assert_eq!(rincon_id("Living Room, Living Room"), None);
    assert_eq!(rincon_id(""), None);
    assert_eq!(rincon_id("é - ü - RINCON_ß, Zimmer"), Some("RINCON_ß".to_string()));
}

#[test]
fn text_before_cuts_at_the_first_match() {
    assert_eq!(text_before("a,b,c", ","), "a");
    assert_eq!(text_before("abc", ","), "abc");
    assert_eq!(text_before(",abc", ","), "");
    assert_eq!(text_before("one - two - three", " - "), "one");
    assert_eq!(text_before("", ","), "");
    assert_eq!(text_before("abc", ""), "");
}

#[test]
fn search_finds_the_first_place() {
    let text = chars_of("abcabc");
    let pattern = chars_of("bc");
    assert_eq!(text, vec!['a', 'b', 'c', 'a', 'b', 'c']);
    assert_eq!(find_text(&text, &pattern, 0), Some(1));
    assert_eq!(find_text(&text, &pattern, 1), Some(1));
    assert_eq!(find_text(&text, &pattern, 2), Some(4));
    assert_eq!(find_text(&text, &pattern, 5), None);
    assert_eq!(find_text(&text, &pattern, 60), None);
    assert_eq!(find_text(&text, &chars_of(""), 6), Some(6));
    assert_eq!(find_text(&text, &chars_of(""), 7), None);
    assert_eq!(find_text(&text, &chars_of("abcabcd"), 0), None);
    assert!(matches_at(&text, &pattern, 4));
    assert!(!matches_at(&text, &pattern, 5));
    assert!(!matches_at(&text, &pattern, 3));
}

#[test]
fn subscriber_is_the_first_speaker_with_the_identifier() {
    let found = vec![
        speaker("10.0.0.2", "10.0.0.2 - Sonos One - RINCON_A", "Den"),
        speaker("10.0.0.3", "10.0.0.3 - Sonos Five - RINCON_B", "Kitchen"),
        speaker("10.0.0.4", "10.0.0.4 - Sonos Five - RINCON_B", "Attic"),
    ];
    let subscriber =
        EventSubscriber::new("10.0.0.3 - Sonos Five - RINCON_B, Kitchen", Ok(found)).unwrap();
    assert_eq!(subscriber.device_ip(), "10.0.0.3");
    assert_eq!(subscriber.friendly_name(), "10.0.0.3 - Sonos Five - RINCON_B");
}

#[test]
fn subscriber_errors_come_in_order() {
    let name = "10.0.0.3 - Sonos Five - RINCON_B, Kitchen";
    let found = vec![speaker("10.0.0.2", "10.0.0.2 - Sonos One - RINCON_A", "Den")];
    assert_eq!(
        EventSubscriber::new("Kitchen", Err("no socket".to_string())).unwrap_err(),
        SubscriberError::Discovery("no socket".to_string())
    );
    assert_eq!(
        EventSubscriber::new("Kitchen", Ok(found.clone())).unwrap_err(),
        SubscriberError::InvalidName("Kitchen".to_string())
    );
    assert_eq!(
        EventSubscriber::new(name, Ok(found)).unwrap_err(),
        SubscriberError::NotFound(name.to_string())
    );
    assert_eq!(
        EventSubscriber::new(name, Ok(Vec::new())).unwrap_err(),
        SubscriberError::NotFound(name.to_string())
    );
    assert_eq!(SubscriberError::Discovery("no socket".to_string()).message(), "no socket");
    assert_eq!(
        SubscriberError::InvalidName("Kitchen".to_string()).message(),
        "Invalid device name format: Kitchen"
    );
    assert_eq!(
        SubscriberError::NotFound("Kitchen".to_string()).message(),
        "Device not found: Kitchen"
    );
}

#[test]
fn subscription_names_the_event_endpoint_and_the_listener() {
    let found = vec![speaker("10.0.0.2:1400", "10.0.0.2 - Sonos One - RINCON_A", "Den")];
    let subscriber = EventSubscriber::new("x - y - RINCON_A, Den", Ok(found)).unwrap();
    let request = subscriber.subscribe("0.0.0.0:4711");
    assert_eq!(request.url, "http://10.0.0.2:1400/MediaRenderer/AVTransport/Event");
    assert_eq!(request.callback, "<http://0.0.0.0:4711/notify>");
    assert_eq!(request.notification_type, "upnp:event");
    assert_eq!(request.timeout, "Second-300");
}
