use std::collections::BTreeMap;
use zellij_what_time::configuration::Configuration;

fn options(pairs: &[(&str, &str)]) -> BTreeMap<String, String> {
    let mut m = BTreeMap::new();
    for (k, v) in pairs {
        m.insert(k.to_string(), v.to_string());
    }
    m
}

fn loaded(pairs: &[(&str, &str)]) -> Configuration {
    let mut c = Configuration::default();
    c.load_user_config(&options(pairs));
    c
}

#[test]
fn default_configuration() {
    let c = Configuration::default();
    assert_eq!(c.get_date_format(), "%Y.%m.%d %a");
    assert!(c.get_has_date());
    assert_eq!(c.get_time_format(), "%H:%M");
    assert!(c.get_has_time());
    assert_eq!(c.get_separator(), " 〈");
    assert_eq!(c.get_interval_update(), "60");
    assert!(!c.is_log_enabled());
    assert_eq!(c.get_log_level(), "debug");
}

#[test]
fn load_without_options_uses_defaults() {
    let c = loaded(&[]);
    assert_eq!(c.get_date_format(), "%Y.%m.%d %a");
    assert!(c.get_has_date());
    assert_eq!(c.get_time_format(), "%H:%M");
    assert!(c.get_has_time());
    assert_eq!(c.get_separator(), " 〈");
    assert_eq!(c.get_interval_update(), "60");
    assert!(c.is_log_enabled());
    assert_eq!(c.get_log_level(), "debug");
}

#[test]
fn load_takes_user_values() {
    let c = loaded(&[
        ("date_format", "%d/%m"),
        ("time_format", "%H:%M:%S"),
        ("separator", " | "),
        ("interval_update", "1.5"),
        ("log_level", "info"),
        ("unrelated", "x"),
    ]);
    assert_eq!(c.get_date_format(), "%d/%m");
    assert!(c.get_has_date());
    assert_eq!(c.get_time_format(), "%H:%M:%S");
    assert!(c.get_has_time());
    assert_eq!(c.get_separator(), " | ");
    assert_eq!(c.get_interval_update(), "1.5");
    assert!(c.is_log_enabled());
    assert_eq!(c.get_log_level(), "info");
}

#[test]
fn empty_date_format_disables_date_only() {
    let c = loaded(&[("date_format", "")]);
    assert!(!c.get_has_date());
    assert_eq!(c.get_date_format(), "%Y.%m.%d %a");
    assert!(c.get_has_time());
    assert_eq!(c.get_time_format(), "%H:%M");
}

#[test]
fn empty_time_format_disables_time() {
    let c = loaded(&[("time_format", "")]);
    assert!(c.get_has_date());
    assert!(!c.get_has_time());
    assert_eq!(c.get_time_format(), "%H:%M");
}

#[test]
fn empty_separator_is_kept() {
    let c = loaded(&[("separator", "")]);
    assert_eq!(c.get_separator(), "");
}

#[test]
fn empty_log_level_disables_logging() {
    let c = loaded(&[("log_level", "")]);
    assert!(!c.is_log_enabled());
    assert_eq!(c.get_log_level(), "debug");
}

#[test]
fn reload_replaces_every_setting() {
    let mut c = Configuration::default();
    c.load_user_config(&options(&[("date_format", ""), ("separator", "-")]));
    c.load_user_config(&options(&[]));
    assert!(c.get_has_date());
    assert_eq!(c.get_separator(), " 〈");
}

#[test]
fn configuration_summary() {
    let c = loaded(&[("separator", "-"), ("interval_update", "30")]);
    assert_eq!(
        c.to_string(),
        "Configuration: date_format: %Y.%m.%d %a, time_format: %H:%M, separator: -, interval_update: 30, log_level: debug"
    );
}
