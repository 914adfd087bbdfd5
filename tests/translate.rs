use regolith_inputd::layout::{aggregate_layouts, split_layout};
use regolith_inputd::text::{decimal_text, text_eq};
use regolith_inputd::translate::{click_method, left_handed_preference, scroll_method, toggle_token};
use regolith_inputd::{EnabledOrDisabled, PrimitiveToSwayType, SendEvents, SwayTypeToPrimitive};

#[test]
fn scroll_method_two_finger_only() {
    assert_eq!(scroll_method(true, false), "two_finger");
}

#[test]
fn scroll_method_edge_only() {
    assert_eq!(scroll_method(false, true), "edge");
}

#[test]
fn scroll_method_neither() {
    assert_eq!(scroll_method(false, false), "none");
}

#[test]
fn scroll_method_two_finger_wins_ties() {
    assert_eq!(scroll_method(true, true), "two_finger");
}

#[test]
fn click_method_remaps() {
    assert_eq!(click_method("areas"), "button_areas");
    assert_eq!(click_method("fingers"), "clickfinger");
    assert_eq!(click_method("default"), "none");
    assert_eq!(click_method(""), "none");
}

#[test]
fn left_handed_tri_state() {
    assert_eq!(left_handed_preference("left", false), Some(true));
    assert_eq!(left_handed_preference("right", true), Some(false));
    assert_eq!(left_handed_preference("mouse", true), Some(true));
    assert_eq!(left_handed_preference("mouse", false), Some(false));
    assert_eq!(left_handed_preference("both", true), None);
}

#[test]
fn toggle_tokens() {
    assert_eq!(toggle_token(true), "enabled");
    assert_eq!(toggle_token(false), "disabled");
}

#[test]
fn enabled_or_disabled_conversions() {
    let b: bool = EnabledOrDisabled::Enabled.to_primitive();
    assert!(b);
    let b: bool = EnabledOrDisabled::Disabled.to_primitive();
    assert!(!b);
    let s: &str = EnabledOrDisabled::Enabled.to_primitive();
    assert_eq!(s, "enabled");
    let s: &str = EnabledOrDisabled::Disabled.to_primitive();
    assert_eq!(s, "disabled");
    assert_eq!(true.to_sway_type(), EnabledOrDisabled::Enabled);
    assert_eq!(false.to_sway_type(), EnabledOrDisabled::Disabled);
}

#[test]
fn send_events_conversions() {
    let b: bool = SendEvents::Enabled.to_primitive();
    assert!(b);
    let b: bool = SendEvents::DisabledOnExternalMouse.to_primitive();
    assert!(!b);
    let s: &str = SendEvents::Disabled.to_primitive();
    assert_eq!(s, "disabled");
    let s: &str = SendEvents::DisabledOnExternalMouse.to_primitive();
    assert_eq!(s, "disabled_on_external_mouse");
}

#[test]
fn split_layout_with_and_without_variant() {
    assert_eq!(split_layout("us+dvorak"), ("us".to_string(), "dvorak".to_string()));
    assert_eq!(split_layout("gb"), ("gb".to_string(), String::new()));
    assert_eq!(split_layout("de+neo+x"), ("de".to_string(), "neo+x".to_string()));
    assert_eq!(split_layout("+intl"), (String::new(), "intl".to_string()));
}

#[test]
fn aggregate_keeps_source_order_with_empty_variants() {
    let sources = vec!["us".to_string(), "us+dvorak".to_string(), "gb".to_string()];
    let (layouts, variants) = aggregate_layouts(&sources).unwrap();
    assert_eq!(layouts, "us,us,gb");
    assert_eq!(variants, ",dvorak,");
}

#[test]
fn aggregate_single_source() {
    let sources = vec!["fr+azerty".to_string()];
    assert_eq!(aggregate_layouts(&sources), Some(("fr".to_string(), "azerty".to_string())));
}

#[test]
fn aggregate_empty_list_is_none() {
    let sources: Vec<String> = Vec::new();
    assert_eq!(aggregate_layouts(&sources), None);
}

#[test]
fn decimal_text_values() {
    assert_eq!(decimal_text(0), "0");
    assert_eq!(decimal_text(7), "7");
    assert_eq!(decimal_text(660), "660");
    assert_eq!(decimal_text(u32::MAX), "4294967295");
}

#[test]
fn text_eq_compares_characters() {
    assert!(text_eq("speed", "speed"));
    assert!(!text_eq("speed", "speeD"));
    assert!(!text_eq("speed", "spee"));
    assert!(text_eq("", ""));
    assert!(text_eq("ünï", "ünï"));
}
