use std::time::Duration;
use toggle_block::input::{str_equal, I3BarEvent};
use toggle_block::toggle::{probe_reports_on, Toggle, ToggleConfig};
use toggle_block::widget::{icon_name, ButtonWidget};

fn config(interval: Option<Duration>, on: &str, off: &str, state: &str) -> ToggleConfig {
    ToggleConfig {
        interval,
        command_on: on.to_string(),
        command_off: off.to_string(),
        command_state: state.to_string(),
        text: "wifi".to_string(),
    }
}

fn click_on(t: &Toggle) -> I3BarEvent {
    I3BarEvent { name: Some(t.id().to_string()) }
}

#[test]
fn new_block_is_off_with_off_icon() {
    let t = Toggle::new(config(None, "true", "false", "echo"));
    assert!(!t.is_toggled());
    assert_eq!(t.current_view().icon(), "toggle_off");
    assert_eq!(t.current_view().text(), "wifi");
    assert_eq!(t.current_view().name(), t.id());
}

#[test]
fn new_block_identity_is_lower_hex() {
    let t = Toggle::new(ToggleConfig::default());
    assert_eq!(t.id().len(), 32);
    assert!(t.id().chars().all(|c| c.is_ascii_digit() || ('a'..='f').contains(&c)));
    let u = Toggle::new(ToggleConfig::default());
    assert_ne!(t.id(), u.id());
}

#[test]
fn with_id_keeps_the_given_identity() {
    let t = Toggle::with_id(config(None, "a", "b", "c"), "block7".to_string());
    assert_eq!(t.id(), "block7");
    assert_eq!(t.current_view().name(), "block7");
    assert_eq!(t.selected_command(), "a");
}

#[test]
fn empty_probe_output_is_off() {
    // the probe `echo` prints a bare line break
    let mut t = Toggle::new(config(None, "true", "false", "echo"));
    t.update(b"\n");
    assert!(!t.is_toggled());
    assert_eq!(t.current_view().icon(), "toggle_off");
}

#[test]
fn non_empty_probe_output_is_on() {
    // the probe `echo on` prints "on"
    let mut t = Toggle::new(config(None, "true", "false", "echo on"));
    t.update(b"on\n");
    assert!(t.is_toggled());
    assert_eq!(t.current_view().icon(), "toggle_on");
}

#[test]
fn probe_overwrites_state_and_repeats_the_same() {
    let mut t = Toggle::new(config(None, "true", "false", "x"));
    t.update(b"yes");
    assert!(t.is_toggled());
    t.update(b"yes");
    assert!(t.is_toggled());
    assert_eq!(t.current_view().icon(), "toggle_on");
    t.update(b"");
    assert!(!t.is_toggled());
    t.update(b"");
    assert!(!t.is_toggled());
    assert_eq!(t.current_view().icon(), "toggle_off");
}

#[test]
fn white_space_output_is_on() {
    let mut t = Toggle::new(config(None, "true", "false", "printf ' '"));
    t.update(b" ");
    assert!(t.is_toggled());
    assert_eq!(t.current_view().icon(), "toggle_on");
    t.update(b"\n");
    assert!(!t.is_toggled());
    assert_eq!(t.current_view().icon(), "toggle_off");
}

#[test]
fn update_returns_configured_interval() {
    let mut t = Toggle::new(config(Some(Duration::from_secs(5)), "a", "b", "c"));
    assert_eq!(t.update(b""), Some(Duration::from_secs(5)));
    assert_eq!(t.update(b"on"), Some(Duration::from_secs(5)));
    let mut u = Toggle::new(config(None, "a", "b", "c"));
    assert_eq!(u.update(b"on"), None);
    assert_eq!(u.update(b""), None);
}

#[test]
fn click_on_other_block_changes_nothing() {
    let mut t = Toggle::new(config(None, "true", "false", "echo"));
    let other = I3BarEvent { name: Some("someone_else".to_string()) };
    assert!(t.click_command(&other).is_none());
    t.click(&other, true);
    assert!(!t.is_toggled());
    assert_eq!(t.current_view().icon(), "toggle_off");
    let unnamed = I3BarEvent { name: None };
    assert!(t.click_command(&unnamed).is_none());
    t.click(&unnamed, true);
    assert!(!t.is_toggled());
    assert_eq!(t.current_view().icon(), "toggle_off");
}

#[test]
fn click_with_succeeding_then_failing_command() {
    let mut t = Toggle::new(config(None, "true", "false", "echo"));
    let e = click_on(&t);
    // off: the click runs `true`, which succeeds
    assert_eq!(t.click_command(&e).map(|c| c.as_str()), Some("true"));
    t.click(&e, true);
    assert!(t.is_toggled());
    assert_eq!(t.current_view().icon(), "toggle_on");
    // on: the click runs `false`, which fails
    assert_eq!(t.click_command(&e).map(|c| c.as_str()), Some("false"));
    t.click(&e, false);
    assert!(t.is_toggled());
    assert_eq!(t.current_view().icon(), "toggle_on");
}

#[test]
fn click_flips_back_off() {
    let mut t = Toggle::new(config(None, "on_cmd", "off_cmd", "echo"));
    t.update(b"on");
    let e = click_on(&t);
    assert_eq!(t.selected_command(), "off_cmd");
    t.click(&e, true);
    assert!(!t.is_toggled());
    assert_eq!(t.current_view().icon(), "toggle_off");
    assert_eq!(t.selected_command(), "on_cmd");
}

#[test]
fn probe_output_rules() {
    assert!(!probe_reports_on(b""));
    assert!(!probe_reports_on(b"\n"));
    assert!(probe_reports_on(b" "));
    assert!(probe_reports_on(b"\n\n"));
    assert!(probe_reports_on(b" \t\r\n\x0c"));
    assert!(probe_reports_on(b"\n1\n"));
    assert!(probe_reports_on(b"0"));
}

#[test]
fn string_equality() {
    assert!(str_equal("abc", "abc"));
    assert!(!str_equal("abc", "abd"));
    assert!(!str_equal("abc", "ab"));
    assert!(str_equal("", ""));
    assert!(str_equal("é1", "é1"));
}

#[test]
fn is_target_compares_names() {
    let t = Toggle::with_id(ToggleConfig::default(), "abc".to_string());
    assert!(t.is_target(&I3BarEvent { name: Some("abc".to_string()) }));
    assert!(!t.is_target(&I3BarEvent { name: Some("abcd".to_string()) }));
    assert!(!t.is_target(&I3BarEvent { name: None }));
}

#[test]
fn widget_builders() {
    let mut w = ButtonWidget::new("n").with_text("label");
    assert_eq!(w.icon(), "");
    w.set_icon(icon_name(true));
    assert_eq!(w.icon(), "toggle_on");
    assert_eq!(w.text(), "label");
    assert_eq!(w.name(), "n");
    assert_eq!(icon_name(false), "toggle_off");
}

#[test]
fn default_config_is_empty() {
    let c = ToggleConfig::default();
    assert!(c.interval.is_none());
    assert!(c.command_on.is_empty() && c.command_off.is_empty());
    assert!(c.command_state.is_empty() && c.text.is_empty());
}
