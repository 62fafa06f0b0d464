use std::collections::BTreeMap;
use zellij_what_time::configuration::Configuration;
use zellij_what_time::date_time::DateTime;

fn config(pairs: &[(&str, &str)]) -> Configuration {
    let mut m = BTreeMap::new();
    for (k, v) in pairs {
        m.insert(k.to_string(), v.to_string());
    }
    let mut c = Configuration::default();
    c.load_user_config(&m);
    c
}

fn parse(s: &str) -> Option<DateTime> {
    DateTime::parse(&s.to_string())
}

#[test]
fn parse_and_render_both_fields() {
    let dt = parse("2024.03.02 SatX14:30").unwrap();
    assert_eq!(dt.render(&config(&[])), " 〈2024.03.02 Sat 〈14:30");
}

#[test]
fn parse_without_delimiter_fails() {
    assert!(parse("2024.03.02 Sat 14:30").is_none());
    assert!(parse("").is_none());
}

#[test]
fn parse_keeps_the_first_two_fields() {
    let dt = parse("aXbXc").unwrap();
    assert_eq!(dt.render(&config(&[("separator", "|")])), "|a|b");
}

#[test]
fn parse_lone_delimiter_gives_empty_fields() {
    let dt = parse("X").unwrap();
    assert_eq!(dt.render(&config(&[("separator", "-")])), "--");
}

#[test]
fn parse_keeps_whitespace() {
    let dt = parse(" d X t ").unwrap();
    assert_eq!(dt.render(&config(&[("separator", "")])), " d  t ");
}

#[test]
fn round_trip_with_dash_separator() {
    let dt = parse("12/31Xnoon").unwrap();
    assert_eq!(dt.render(&config(&[("separator", "-")])), "-12/31-noon");
}

#[test]
fn render_date_only() {
    let dt = DateTime::new("d".to_string(), "t".to_string());
    assert_eq!(dt.render(&config(&[("time_format", ""), ("separator", ":")])), ":d");
}

#[test]
fn render_time_only() {
    let dt = DateTime::new("d".to_string(), "t".to_string());
    assert_eq!(dt.render(&config(&[("date_format", ""), ("separator", ":")])), ":t");
}

#[test]
fn render_nothing_enabled() {
    let dt = DateTime::new("d".to_string(), "t".to_string());
    assert_eq!(dt.render(&config(&[("date_format", ""), ("time_format", "")])), "");
}

#[test]
fn default_date_time_renders_separators_only() {
    let dt = DateTime::default();
    assert_eq!(dt.render(&config(&[("separator", "+")])), "++");
}
