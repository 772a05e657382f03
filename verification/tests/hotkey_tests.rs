use simnation::flavor::Flavor;
use simnation::hotkeys::{
    check_key, event_name, hotkey_reaction, media_keys, plan_checked_hotkeys, plan_hotkey_update,
    AppEvent, CheckedKey, HotkeyRole, Reaction,
};

#[test]
fn event_names() {
    assert_eq!(event_name(AppEvent::MediaPlay), "media-play");
    assert_eq!(event_name(AppEvent::MediaStop), "media-stop");
    assert_eq!(event_name(AppEvent::MediaHardwareToggle), "media-hardware-toggle");
    assert_eq!(event_name(AppEvent::TelemetryUpdate), "telemetry-update");
}

#[test]
fn hotkeys_act_on_press_only() {
    assert_eq!(
        hotkey_reaction(HotkeyRole::Play, true),
        Some(Reaction::Emit(AppEvent::MediaPlay))
    );
    assert_eq!(
        hotkey_reaction(HotkeyRole::Stop, true),
        Some(Reaction::Emit(AppEvent::MediaStop))
    );
    assert_eq!(hotkey_reaction(HotkeyRole::Overlay, true), Some(Reaction::ToggleOverlay));
    assert_eq!(hotkey_reaction(HotkeyRole::Play, false), None);
    assert_eq!(hotkey_reaction(HotkeyRole::Overlay, false), None);
}

#[test]
fn hotkey_update_releases_configured_keys_only() {
    let plan = plan_hotkey_update(
        "F1".to_string(),
        "F5".to_string(),
        String::new(),
        "F6".to_string(),
        "Ctrl+O".to_string(),
        "Ctrl+Shift+O".to_string(),
    );
    assert_eq!(plan.release, vec!["F1".to_string(), "Ctrl+O".to_string()]);
    assert_eq!(plan.bind.len(), 3);
    assert_eq!(plan.bind[0].key, "F5");
    assert_eq!(plan.bind[0].role, HotkeyRole::Play);
    assert_eq!(plan.bind[1].key, "F6");
    assert_eq!(plan.bind[1].role, HotkeyRole::Stop);
    assert_eq!(plan.bind[2].key, "Ctrl+Shift+O");
    assert_eq!(plan.bind[2].role, HotkeyRole::Overlay);
}

#[test]
fn hotkey_update_skips_unparsable_keys() {
    let plan = plan_hotkey_update(
        "NoSuchKey".to_string(),
        "Ctrl+".to_string(),
        "F2".to_string(),
        "O+Ctrl".to_string(),
        "shift+alt+KeyQ".to_string(),
        "MediaPlayPause".to_string(),
    );
    assert_eq!(plan.release, vec!["F2".to_string(), "shift+alt+KeyQ".to_string()]);
    assert_eq!(plan.bind.len(), 1);
    assert_eq!(plan.bind[0].key, "MediaPlayPause");
    assert_eq!(plan.bind[0].role, HotkeyRole::Overlay);
}

#[test]
fn hotkey_update_with_nothing_configured() {
    let plan = plan_hotkey_update(
        String::new(),
        String::new(),
        String::new(),
        String::new(),
        String::new(),
        String::new(),
    );
    assert!(plan.release.is_empty());
    assert!(plan.bind.is_empty());
}

#[test]
fn checked_keys_plan_as_flagged() {
    let ck = |k: &str, ok: bool| CheckedKey { key: k.to_string(), accepted: ok };
    let plan = plan_checked_hotkeys(
        ck("A", true),
        ck("B", false),
        ck("", true),
        ck("D", true),
        ck("E", false),
        ck("F", true),
    );
    assert_eq!(plan.release, vec!["A".to_string()]);
    assert_eq!(plan.bind.len(), 2);
    assert_eq!((plan.bind[0].key.as_str(), plan.bind[0].role), ("D", HotkeyRole::Stop));
    assert_eq!((plan.bind[1].key.as_str(), plan.bind[1].role), ("F", HotkeyRole::Overlay));
}

#[test]
fn check_key_runs_the_parser() {
    assert!(check_key("Ctrl+Shift+O".to_string()).accepted);
    assert!(check_key("MediaStop".to_string()).accepted);
    assert!(!check_key(String::new()).accepted);
    assert!(!check_key("Ctrl+C+Shift".to_string()).accepted);
    assert_eq!(check_key("F9".to_string()).key, "F9");
}

#[test]
fn media_keys_of_the_desktop_shell() {
    let keys = media_keys(Flavor::Desktop);
    assert_eq!(keys.len(), 2);
    assert_eq!((keys[0].key, keys[0].event), ("MediaPlayPause", AppEvent::MediaHardwareToggle));
    assert_eq!((keys[1].key, keys[1].event), ("MediaStop", AppEvent::MediaStop));
    assert!(media_keys(Flavor::Radio).is_empty());
    assert!(media_keys(Flavor::Hub).is_empty());
}

#[test]
fn empty_keys_are_never_accepted_or_bound() {
    assert!(!check_key(String::new()).accepted);
    let plan = plan_hotkey_update(
        String::new(),
        "F5".to_string(),
        String::new(),
        String::new(),
        String::new(),
        String::new(),
    );
    assert!(plan.release.is_empty());
    assert_eq!(plan.bind.len(), 1);
    assert!(plan.bind.iter().all(|b| !b.key.is_empty()));
}
