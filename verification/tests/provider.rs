//! Tests of the provider catalogue, its selection equality, and the text
//! helpers the core builds its messages with.

use dnsight::domain::DnsProvider;
use dnsight::text::{eq_ignore_ascii_case_str, join_with, str_contains, str_eq, trim_str};

#[test]
fn builtin_providers_carry_their_addresses() {
    assert_eq!(
        DnsProvider::electro().get_servers(),
        ("78.157.42.100".to_string(), "78.157.42.101".to_string())
    );
    assert_eq!(
        DnsProvider::radar().get_servers(),
        ("10.202.10.10".to_string(), "10.202.10.11".to_string())
    );
    assert_eq!(
        DnsProvider::shekan().get_servers(),
        ("178.22.122.100".to_string(), "185.51.200.2".to_string())
    );
    assert_eq!(
        DnsProvider::bogzar().get_servers(),
        ("185.55.226.26".to_string(), "185.55.225.25".to_string())
    );
    assert_eq!(
        DnsProvider::quad9().get_servers(),
        ("9.9.9.9".to_string(), "149.112.112.112".to_string())
    );
}

#[test]
fn display_names_follow_the_variant() {
    assert_eq!(DnsProvider::electro().display_name(), "Electro");
    assert_eq!(DnsProvider::radar().display_name(), "Radar");
    assert_eq!(DnsProvider::shekan().display_name(), "Shekan");
    assert_eq!(DnsProvider::bogzar().display_name(), "Bogzar");
    assert_eq!(DnsProvider::quad9().display_name(), "Quad9");
    assert_eq!(
        DnsProvider::custom("1.1.1.1".to_string(), "1.0.0.1".to_string()).display_name(),
        "Custom"
    );
    assert_eq!(
        DnsProvider::saved(
            "Work".to_string(),
            "10.0.0.1".to_string(),
            "10.0.0.2".to_string()
        )
        .display_name(),
        "Work"
    );
}

#[test]
fn default_provider_is_electro() {
    assert_eq!(DnsProvider::default(), DnsProvider::electro());
}

#[test]
fn selection_ignores_custom_addresses() {
    let a = DnsProvider::custom("1.1.1.1".to_string(), "1.0.0.1".to_string());
    let b = DnsProvider::custom("8.8.8.8".to_string(), "8.8.4.4".to_string());
    assert!(DnsProvider::selection_eq(&a, &b));
}

#[test]
fn selection_compares_saved_entries_by_name() {
    let a = DnsProvider::saved("Work".to_string(), "1.1.1.1".to_string(), "1.0.0.1".to_string());
    let b = DnsProvider::saved("Work".to_string(), "8.8.8.8".to_string(), "8.8.4.4".to_string());
    let c = DnsProvider::saved("Home".to_string(), "1.1.1.1".to_string(), "1.0.0.1".to_string());
    assert!(DnsProvider::selection_eq(&a, &b));
    assert!(!DnsProvider::selection_eq(&a, &c));
}

#[test]
fn selection_distinguishes_variants() {
    assert!(DnsProvider::selection_eq(&DnsProvider::quad9(), &DnsProvider::quad9()));
    assert!(!DnsProvider::selection_eq(&DnsProvider::quad9(), &DnsProvider::electro()));
    assert!(!DnsProvider::selection_eq(
        &DnsProvider::custom(String::new(), String::new()),
        &DnsProvider::saved("Custom".to_string(), String::new(), String::new())
    ));
}

#[test]
fn trim_removes_surrounding_whitespace_only() {
    assert_eq!(trim_str("  Work \t"), "Work");
    assert_eq!(trim_str("Work"), "Work");
    assert_eq!(trim_str("  a b  "), "a b");
    assert_eq!(trim_str("   "), "");
    assert_eq!(trim_str(""), "");
}

#[test]
fn case_insensitive_comparison_is_ascii_only() {
    assert!(eq_ignore_ascii_case_str("Work", "wORK"));
    assert!(!eq_ignore_ascii_case_str("Work", "Werk"));
    assert!(!eq_ignore_ascii_case_str("Work", "Work "));
}

#[test]
fn substring_search_finds_marker() {
    assert!(str_contains("dhcp-assigned", "dhcp"));
    assert!(str_contains("server (dhcp)", "dhcp"));
    assert!(!str_contains("static", "dhcp"));
    assert!(str_contains("anything", ""));
    assert!(!str_contains("dh", "dhcp"));
}

#[test]
fn join_uses_separator_between_parts() {
    let parts: Vec<String> = Vec::new();
    assert_eq!(join_with(&parts, ", "), "");
    let one = vec!["8.8.8.8".to_string()];
    assert_eq!(join_with(&one, ", "), "8.8.8.8");
    let three = vec!["a".to_string(), "b".to_string(), "c".to_string()];
    assert_eq!(join_with(&three, ", "), "a, b, c");
}

#[test]
fn exact_string_equality() {
    assert!(str_eq("Work", "Work"));
    assert!(!str_eq("Work", "work"));
    assert!(!str_eq("Work", "Work "));
}
