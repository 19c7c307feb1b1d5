use m720_remapper::config::RemapConfig;
use m720_remapper::event::{classify, report, EventResult, RawEvent, Verdict};
use m720_remapper::injector::Chord;
use m720_remapper::keys::{EventType, Key, VALUE_PRESS, VALUE_RELEASE, VALUE_REPEAT};
use m720_remapper::session::DeviceSession;

fn pass() -> Verdict {
    Verdict { result: EventResult::PassThrough, chord: None }
}

fn key_event(code: Key, value: i32) -> RawEvent {
    RawEvent::new(EventType::Key, code, value)
}

#[test]
fn default_config_remaps_and_stays_quiet() {
    let config = RemapConfig::default();
    assert!(config.remap_side_buttons);
    assert!(!config.debug_mode);
    assert_eq!(config, RemapConfig::new(true, false));
}

#[test]
fn event_values_are_the_usual_ones() {
    assert_eq!(VALUE_RELEASE, 0);
    assert_eq!(VALUE_PRESS, 1);
    assert_eq!(VALUE_REPEAT, 2);
}

#[test]
fn side_press_becomes_workspace_down() {
    let verdict = classify(&RemapConfig::default(), &key_event(Key::ButtonSide, 1));
    assert_eq!(verdict.result, EventResult::Consumed);
    assert_eq!(verdict.chord, Some(Chord { modifier: Key::LeftMeta, key: Key::PageDown }));
}

#[test]
fn extra_press_becomes_workspace_up() {
    let verdict = classify(&RemapConfig::default(), &key_event(Key::ButtonExtra, 1));
    assert_eq!(verdict.result, EventResult::Consumed);
    assert_eq!(verdict.chord, Some(Chord { modifier: Key::LeftMeta, key: Key::PageUp }));
}

#[test]
fn thumb_button_release_is_swallowed_without_a_chord() {
    let config = RemapConfig::default();
    let swallowed = Verdict { result: EventResult::Consumed, chord: None };
    assert_eq!(classify(&config, &key_event(Key::ButtonSide, 0)), swallowed);
    assert_eq!(classify(&config, &key_event(Key::ButtonExtra, 0)), swallowed);
}

#[test]
fn thumb_button_repeat_passes_through() {
    let config = RemapConfig::default();
    assert_eq!(classify(&config, &key_event(Key::ButtonSide, 2)), pass());
    assert_eq!(classify(&config, &key_event(Key::ButtonExtra, 2)), pass());
}

#[test]
fn other_values_of_thumb_buttons_pass_through() {
    let config = RemapConfig::default();
    assert_eq!(classify(&config, &key_event(Key::ButtonSide, 3)), pass());
    assert_eq!(classify(&config, &key_event(Key::ButtonSide, -1)), pass());
    assert_eq!(classify(&config, &key_event(Key::ButtonExtra, i32::MAX)), pass());
    assert_eq!(classify(&config, &key_event(Key::ButtonExtra, i32::MIN)), pass());
}

#[test]
fn other_keys_pass_through() {
    let config = RemapConfig::default();
    for code in [
        Key::ButtonLeft,
        Key::ButtonRight,
        Key::ButtonMiddle,
        Key::LeftMeta,
        Key::PageUp,
        Key::PageDown,
        Key::Other(0),
        Key::Other(275),
    ] {
        for value in [0, 1, 2] {
            assert_eq!(classify(&config, &key_event(code, value)), pass());
        }
    }
}

#[test]
fn other_event_types_pass_through() {
    let config = RemapConfig::default();
    for event_type in [
        EventType::Sync,
        EventType::Relative,
        EventType::Absolute,
        EventType::Other(1),
        EventType::Other(4),
    ] {
        for code in [Key::ButtonSide, Key::ButtonExtra, Key::ButtonLeft] {
            for value in [0, 1, 2] {
                assert_eq!(classify(&config, &RawEvent::new(event_type, code, value)), pass());
            }
        }
    }
}

#[test]
fn remap_off_passes_thumb_buttons_through() {
    let config = RemapConfig::new(false, false);
    for code in [Key::ButtonSide, Key::ButtonExtra] {
        for value in [0, 1, 2] {
            assert_eq!(classify(&config, &key_event(code, value)), pass());
        }
    }
}

#[test]
fn debug_mode_does_not_change_the_verdict() {
    for remap in [false, true] {
        let quiet = RemapConfig::new(remap, false);
        let loud = RemapConfig::new(remap, true);
        for code in [Key::ButtonSide, Key::ButtonExtra, Key::ButtonLeft] {
            for value in [0, 1, 2] {
                let event = key_event(code, value);
                assert_eq!(classify(&quiet, &event), classify(&loud, &event));
            }
        }
    }
}

#[test]
fn report_names_the_chord_only_in_debug_mode() {
    let chord = Verdict { result: EventResult::Consumed, chord: Some(Chord::workspace_down()) };
    let swallowed = Verdict { result: EventResult::Consumed, chord: None };
    let loud = RemapConfig::new(true, true);
    let quiet = RemapConfig::new(true, false);
    assert_eq!(report(&loud, &chord), Some(Chord::workspace_down()));
    assert_eq!(report(&quiet, &chord), None);
    assert_eq!(report(&loud, &swallowed), None);
    assert_eq!(report(&loud, &pass()), None);
}

#[test]
fn closed_session_lets_nothing_reach_the_classifier() {
    let session = DeviceSession::new(3);
    assert_eq!(session, DeviceSession { device: 3, open: false });
    let config = RemapConfig::default();
    assert_eq!(session.on_event(&config, &key_event(Key::ButtonSide, 1)), pass());
    assert_eq!(session.on_event(&config, &key_event(Key::ButtonSide, 0)), pass());
}

#[test]
fn open_session_classifies() {
    let session = DeviceSession { device: 3, open: true };
    let config = RemapConfig::default();
    let event = key_event(Key::ButtonExtra, 1);
    assert_eq!(session.on_event(&config, &event), classify(&config, &event));
    assert_eq!(session.on_event(&config, &event).chord, Some(Chord::workspace_up()));
}
