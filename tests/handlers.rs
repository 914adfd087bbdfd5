use regolith_inputd::{
    DeviceType, Directive,
    Command, DeviceCategory, EnabledOrDisabled, Input, InputSourcesHandler, InputSourcesSettings,
    KeyboardHandler, KeyboardSettings, Libinput, MouseHandler, MouseSettings, SendEvents,
    SettingKey, SettingWrite, SettingsManager, SyncError, TouchpadHandler, TouchpadSettings,
    sync_input_gsettings, absorb_device_event, Direction, MonitorAction, SuppressionGate,
};

fn texts(r: Result<Vec<Command>, SyncError>) -> Vec<String> {
    r.unwrap().iter().map(|c| c.text()).collect()
}

fn mouse_settings() -> MouseSettings {
    MouseSettings { speed: "0.25".to_string(), natural_scroll: true, left_handed: false }
}

fn touchpad_settings() -> TouchpadSettings {
    TouchpadSettings {
        speed: "-0.5".to_string(),
        natural_scroll: false,
        left_handed: "mouse".to_string(),
        tap_to_click: true,
        two_finger_scrolling: false,
        edge_scrolling: true,
        send_events: "disabled-on-external-mouse".to_string(),
        disable_while_typing: true,
        tap_and_drag: false,
        tap_and_drag_lock: true,
        middle_click_emulation: false,
        click_method: "fingers".to_string(),
    }
}

fn keyboard_settings() -> KeyboardSettings {
    KeyboardSettings { repeat_interval: 30, repeat_rate: "33.333333333333336".to_string(), delay: 500 }
}

fn sources(list: &[&str]) -> InputSourcesSettings {
    InputSourcesSettings { sources: list.iter().map(|s| s.to_string()).collect() }
}

fn manager(mouse_left_handed: bool) -> SettingsManager {
    let mut m = mouse_settings();
    m.left_handed = mouse_left_handed;
    SettingsManager::new(
        MouseHandler::new(m),
        KeyboardHandler::new(keyboard_settings()),
        TouchpadHandler::new(touchpad_settings()),
        InputSourcesHandler::new(sources(&["us", "us+dvorak", "gb"])),
    )
}

fn empty_libinput() -> Libinput {
    Libinput {
        accel_speed: None,
        natural_scroll: None,
        left_handed: None,
        tap: None,
        tap_drag: None,
        tap_drag_lock: None,
        send_events: None,
    }
}

#[test]
fn mouse_apply_all_forwards_every_key() {
    let h = MouseHandler::new(mouse_settings());
    assert_eq!(
        texts(h.apply_all()),
        vec![
            "input type:pointer pointer_accel 0.25",
            "input type:pointer left_handed disabled",
            "input type:pointer natural_scroll enabled",
        ]
    );
}

#[test]
fn mouse_apply_changes_single_key() {
    let h = MouseHandler::new(mouse_settings());
    assert_eq!(texts(h.apply_changes("natural-scroll")), vec!["input type:pointer natural_scroll enabled"]);
    assert_eq!(texts(h.apply_changes("speed")), vec!["input type:pointer pointer_accel 0.25"]);
}

#[test]
fn unknown_key_is_silent_no_op() {
    let h = MouseHandler::new(mouse_settings());
    assert!(texts(h.apply_changes("double-click")).is_empty());
    assert!(texts(h.apply_changes("tap-to-click")).is_empty());
    let k = KeyboardHandler::new(keyboard_settings());
    assert!(texts(k.apply_changes("speed")).is_empty());
}

#[test]
fn apply_all_twice_gives_same_commands() {
    let m = manager(true);
    for c in [DeviceCategory::Pointer, DeviceCategory::Touchpad, DeviceCategory::Keyboard, DeviceCategory::InputSources] {
        assert_eq!(texts(m.apply_all(c)), texts(m.apply_all(c)));
    }
}

#[test]
fn touchpad_apply_all_forwards_every_key() {
    let h = TouchpadHandler::new(touchpad_settings());
    assert_eq!(
        texts(h.apply_all(true)),
        vec![
            "input type:touchpad pointer_accel -0.5",
            "input type:touchpad left_handed enabled",
            "input type:touchpad natural_scroll disabled",
            "input type:touchpad tap enabled",
            "input type:touchpad scroll_method edge",
            "input type:touchpad events disabled-on-external-mouse",
            "input type:touchpad dwt enabled",
            "input type:touchpad drag disabled",
            "input type:touchpad drag_lock enabled",
            "input type:touchpad middle_emulation disabled",
            "input type:touchpad click_method clickfinger",
        ]
    );
}

#[test]
fn touchpad_scroll_keys_both_derive_scroll_method() {
    let mut s = touchpad_settings();
    s.two_finger_scrolling = true;
    let h = TouchpadHandler::new(s);
    let expected = vec!["input type:touchpad scroll_method two_finger"];
    assert_eq!(texts(h.apply_changes("two-finger-scrolling-enabled", false)), expected);
    assert_eq!(texts(h.apply_changes("edge-scrolling-enabled", false)), expected);
}

#[test]
fn touchpad_left_handed_follows_preference() {
    let mut s = touchpad_settings();
    let h = TouchpadHandler::new(touchpad_settings());
    assert_eq!(texts(h.apply_changes("left-handed", false)), vec!["input type:touchpad left_handed disabled"]);
    s.left_handed = "left".to_string();
    let h = TouchpadHandler::new(s);
    assert_eq!(texts(h.apply_changes("left-handed", false)), vec!["input type:touchpad left_handed enabled"]);
}

#[test]
fn touchpad_malformed_left_handed_is_invalid_value() {
    let mut s = touchpad_settings();
    s.left_handed = "sideways".to_string();
    let h = TouchpadHandler::new(s);
    assert_eq!(h.apply_changes("left-handed", false).err(), Some(SyncError::InvalidValue));
    assert_eq!(h.apply_all(false).err(), Some(SyncError::InvalidValue));
    assert_eq!(texts(h.apply_changes("tap-to-click", false)), vec!["input type:touchpad tap enabled"]);
}

#[test]
fn touchpad_click_method_default_is_none() {
    let mut s = touchpad_settings();
    s.click_method = "default".to_string();
    let h = TouchpadHandler::new(s);
    assert_eq!(texts(h.apply_changes("click-method", false)), vec!["input type:touchpad click_method none"]);
}

#[test]
fn keyboard_apply_all_forwards_rate_and_delay() {
    let h = KeyboardHandler::new(keyboard_settings());
    assert_eq!(
        texts(h.apply_all()),
        vec!["input type:keyboard repeat_rate 33.333333333333336", "input type:keyboard repeat_delay 500"]
    );
    assert_eq!(texts(h.apply_changes("delay")), vec!["input type:keyboard repeat_delay 500"]);
}

#[test]
fn input_sources_send_variants_then_layouts() {
    let h = InputSourcesHandler::new(sources(&["us", "us+dvorak", "gb"]));
    let cmds = h.apply_all().unwrap();
    assert_eq!(cmds[0].value, ",dvorak,");
    assert_eq!(cmds[1].value, "us,us,gb");
    assert_eq!(
        cmds.iter().map(|c| c.text()).collect::<Vec<_>>(),
        vec!["input type:keyboard xkb_variant ',dvorak,'", "input type:keyboard xkb_layout 'us,us,gb'"]
    );
    assert_eq!(texts(h.apply_changes("sources")).len(), 2);
    assert!(texts(h.apply_changes("xkb-options")).is_empty());
}

#[test]
fn input_sources_empty_list_is_invalid_layout() {
    let h = InputSourcesHandler::new(sources(&[]));
    assert_eq!(h.apply_all().err(), Some(SyncError::InvalidLayout));
    assert_eq!(h.apply_changes("sources").err(), Some(SyncError::InvalidLayout));
    assert_eq!(SyncError::InvalidLayout.message(), "Invalid keyboard layout or variant");
}

#[test]
fn touchpad_reads_mouse_left_handed_through_manager() {
    let m = manager(true);
    assert_eq!(
        texts(m.apply_changes(DeviceCategory::Touchpad, "left-handed")),
        vec!["input type:touchpad left_handed enabled"]
    );
    let m = manager(false);
    assert_eq!(
        texts(m.apply_changes(DeviceCategory::Touchpad, "left-handed")),
        vec!["input type:touchpad left_handed disabled"]
    );
}

#[test]
fn absorbed_flag_round_trips_to_canonical_token() {
    let mut m = manager(false);
    let mut l = empty_libinput();
    l.natural_scroll = Some(EnabledOrDisabled::Disabled);
    l.left_handed = Some(EnabledOrDisabled::Enabled);
    let input = Input { input_type: "pointer".to_string(), libinput: Some(l) };
    let writes = sync_input_gsettings(&mut m, &input).unwrap();
    assert_eq!(writes.len(), 2);
    assert!(matches!(writes[0], SettingWrite::Flag(SettingKey::NaturalScroll, false)));
    assert!(matches!(writes[1], SettingWrite::Flag(SettingKey::LeftHanded, true)));
    assert!(!m.mouse.settings.natural_scroll);
    assert!(m.mouse.settings.left_handed);
    assert_eq!(
        texts(m.apply_changes(DeviceCategory::Pointer, "natural-scroll")),
        vec!["input type:pointer natural_scroll disabled"]
    );
    assert_eq!(
        texts(m.apply_changes(DeviceCategory::Pointer, "left-handed")),
        vec!["input type:pointer left_handed enabled"]
    );
}

#[test]
fn touchpad_report_absorbs_present_fields_only() {
    let mut m = manager(false);
    let mut l = empty_libinput();
    l.accel_speed = Some("0.75".to_string());
    l.tap = Some(EnabledOrDisabled::Disabled);
    l.send_events = Some(SendEvents::Disabled);
    let input = Input { input_type: "touchpad".to_string(), libinput: Some(l) };
    let writes = sync_input_gsettings(&mut m, &input).unwrap();
    assert_eq!(writes.len(), 3);
    assert!(matches!(&writes[0], SettingWrite::Number(SettingKey::Speed, s) if s == "0.75"));
    assert!(matches!(&writes[1], SettingWrite::Text(SettingKey::SendEventsMode, s) if s == "disabled"));
    assert!(matches!(writes[2], SettingWrite::Flag(SettingKey::TapToClick, false)));
    let t = &m.touchpad.settings;
    assert_eq!(t.speed, "0.75");
    assert!(!t.tap_to_click);
    assert_eq!(t.send_events, "disabled");
    assert!(t.tap_and_drag_lock);
    assert!(t.disable_while_typing);
    assert_eq!(texts(m.apply_changes(DeviceCategory::Touchpad, "tap-to-click")), vec!["input type:touchpad tap disabled"]);
    assert_eq!(texts(m.apply_changes(DeviceCategory::Touchpad, "send-events")), vec!["input type:touchpad events disabled"]);
}

#[test]
fn report_without_capabilities_is_no_op() {
    let mut m = manager(false);
    let input = Input { input_type: "pointer".to_string(), libinput: None };
    assert!(sync_input_gsettings(&mut m, &input).unwrap().is_empty());
    assert_eq!(m.mouse.settings.speed, "0.25");
}

#[test]
fn keyboard_report_changes_nothing() {
    let mut m = manager(false);
    let mut l = empty_libinput();
    l.left_handed = Some(EnabledOrDisabled::Enabled);
    let input = Input { input_type: "keyboard".to_string(), libinput: Some(l) };
    assert!(sync_input_gsettings(&mut m, &input).unwrap().is_empty());
    assert!(!m.mouse.settings.left_handed);
}

#[test]
fn unknown_report_type_is_dropped() {
    let mut m = manager(false);
    let mut l = empty_libinput();
    l.left_handed = Some(EnabledOrDisabled::Enabled);
    l.accel_speed = Some("1".to_string());
    let input = Input { input_type: "tablet_tool".to_string(), libinput: Some(l) };
    assert!(sync_input_gsettings(&mut m, &input).unwrap().is_empty());
    assert!(!m.mouse.settings.left_handed);
    assert_eq!(m.mouse.settings.speed, "0.25");
    assert_eq!(DeviceCategory::from_input_type("switch"), None);
    assert_eq!(DeviceCategory::from_input_type("touchpad"), Some(DeviceCategory::Touchpad));
}

#[test]
fn zero_repeat_interval_is_invalid_value() {
    let mut s = keyboard_settings();
    s.repeat_interval = 0;
    s.repeat_rate = "inf".to_string();
    let h = KeyboardHandler::new(s);
    assert_eq!(h.apply_changes("repeat-interval").err(), Some(SyncError::InvalidValue));
    assert_eq!(h.apply_all().err(), Some(SyncError::InvalidValue));
    assert_eq!(texts(h.apply_changes("delay")), vec!["input type:keyboard repeat_delay 500"]);
    assert_eq!(SyncError::InvalidValue.message(), "Invalid settings value");
}

#[test]
fn device_event_absorbs_under_hold_when_open() {
    let mut m = manager(false);
    let mut gate = SuppressionGate::new();
    let mut l = empty_libinput();
    l.tap = Some(EnabledOrDisabled::Disabled);
    let input = Input { input_type: "touchpad".to_string(), libinput: Some(l) };
    let (action, writes) = absorb_device_event(&mut gate, &mut m, &input);
    assert_eq!(action, MonitorAction::Absorb);
    assert!(matches!(writes[..], [SettingWrite::Flag(SettingKey::TapToClick, false)]));
    assert!(!m.touchpad.settings.tap_to_click);
    assert!(!gate.allows(Direction::SettingsToDevice));
    gate.end(Direction::DeviceToSettings);
    assert!(gate.allows(Direction::SettingsToDevice));
}

#[test]
fn device_event_dropped_while_paused() {
    let mut m = manager(false);
    let mut gate = SuppressionGate::new();
    gate.pause_reload();
    let mut l = empty_libinput();
    l.tap = Some(EnabledOrDisabled::Disabled);
    let input = Input { input_type: "touchpad".to_string(), libinput: Some(l) };
    let (action, writes) = absorb_device_event(&mut gate, &mut m, &input);
    assert_eq!(action, MonitorAction::Drop);
    assert!(writes.is_empty());
    assert!(m.touchpad.settings.tap_to_click);
    assert!(gate.allows(Direction::SettingsToDevice));
}

#[test]
fn setting_key_names_round_trip() {
    for k in [
        SettingKey::Speed,
        SettingKey::NaturalScroll,
        SettingKey::LeftHanded,
        SettingKey::TapToClick,
        SettingKey::TwoFingerScrolling,
        SettingKey::EdgeScrolling,
        SettingKey::SendEventsMode,
        SettingKey::DisableWhileTyping,
        SettingKey::TapAndDrag,
        SettingKey::TapAndDragLock,
        SettingKey::MiddleClickEmulation,
        SettingKey::ClickMethod,
        SettingKey::RepeatInterval,
        SettingKey::Delay,
        SettingKey::Sources,
    ] {
        assert_eq!(SettingKey::from_name(k.name()), Some(k));
    }
    assert_eq!(SettingKey::from_name("click_method"), None);
}

#[test]
fn handlers_name_their_category() {
    let m = manager(false);
    assert_eq!(m.mouse.category(), DeviceCategory::Pointer);
    assert_eq!(m.touchpad.category(), DeviceCategory::Touchpad);
    assert_eq!(m.keyboard.category(), DeviceCategory::Keyboard);
    assert_eq!(m.input_sources.category(), DeviceCategory::InputSources);
}

#[test]
fn command_text_layout() {
    let c = Command::new(DeviceType::Touchpad, Directive::Dwt, "enabled".to_string());
    assert_eq!(c.text(), "input type:touchpad dwt enabled");
    let c = Command::new(DeviceType::Keyboard, Directive::XkbLayout, String::new());
    assert_eq!(c.text(), "input type:keyboard xkb_layout ''");
}
