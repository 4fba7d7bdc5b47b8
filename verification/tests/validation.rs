//! Tests of IP syntax validation, the add-entry rules, and the saved-entry
//! list operations.

use dnsight::domain::{AppState, DnsProvider, SavedDnsEntry};
use dnsight::state::DnsCore;
use dnsight::store::{add_saved_dns, delete_saved_dns};
use dnsight::validate::{is_valid_ip, validate_new_entry};

fn entry(name: &str, primary: &str, secondary: &str) -> SavedDnsEntry {
    SavedDnsEntry {
        name: name.to_string(),
        primary: primary.to_string(),
        secondary: secondary.to_string(),
    }
}

#[test]
fn valid_ips_are_accepted() {
    assert!(is_valid_ip("8.8.8.8"));
    assert!(is_valid_ip("0.0.0.0"));
    assert!(is_valid_ip("255.255.255.255"));
    assert!(is_valid_ip("192.168.001.010"));
}

#[test]
fn invalid_ips_are_rejected() {
    assert!(!is_valid_ip(""));
    assert!(!is_valid_ip("1.2.3"));
    assert!(!is_valid_ip("1.2.3.4.5"));
    assert!(!is_valid_ip("256.1.1.1"));
    assert!(!is_valid_ip("1.2.3.256"));
    assert!(!is_valid_ip("a.b.c.d"));
    assert!(!is_valid_ip("1..2.3"));
    assert!(!is_valid_ip("1.2.3."));
    assert!(!is_valid_ip(".1.2.3"));
    assert!(!is_valid_ip("1.2.3.4 "));
    assert!(!is_valid_ip("1.2.-3.4"));
}

#[test]
fn validate_accepts_and_trims_new_entry() {
    let entries = vec![entry("Home", "1.1.1.1", "1.0.0.1")];
    let got = validate_new_entry("  Work ", "10.0.0.1", "10.0.0.2", &entries).unwrap();
    assert_eq!(got.name, "Work");
    assert_eq!(got.primary, "10.0.0.1");
    assert_eq!(got.secondary, "10.0.0.2");
}

#[test]
fn duplicate_name_always_fails_validation() {
    let entries = vec![entry("work", "1.1.1.1", "1.0.0.1")];
    let before = entries.len();
    let err = validate_new_entry("Work", "10.0.0.1", "10.0.0.2", &entries).unwrap_err();
    assert_eq!(err, "A DNS entry with the name 'Work' already exists");
    assert_eq!(entries.len(), before);
    // Same outcome regardless of surrounding whitespace or case.
    let err = validate_new_entry("  WORK  ", "10.0.0.1", "10.0.0.2", &entries).unwrap_err();
    assert_eq!(err, "A DNS entry with the name 'WORK' already exists");
    assert_eq!(entries.len(), before);
}

#[test]
fn scenario_add_duplicate_reports_inline_error() {
    let mut core = DnsCore::new(vec![entry("work", "1.1.1.1", "1.0.0.1")]);
    core.set_add_inputs(
        "Work".to_string(),
        "10.0.0.1".to_string(),
        "10.0.0.2".to_string(),
    );
    let handed_out = core.request_add();
    assert!(handed_out.is_none());
    assert_eq!(
        core.add_error,
        Some("A DNS entry with the name 'Work' already exists".to_string())
    );
    assert_eq!(core.saved_entries.len(), 1);
}

#[test]
fn empty_or_invalid_fields_fail_validation() {
    let entries: Vec<SavedDnsEntry> = Vec::new();
    let msg = "Please enter a valid name and DNS IP addresses";
    assert_eq!(
        validate_new_entry("   ", "1.1.1.1", "2.2.2.2", &entries).unwrap_err(),
        msg
    );
    assert_eq!(
        validate_new_entry("Work", "1.1.1", "2.2.2.2", &entries).unwrap_err(),
        msg
    );
    assert_eq!(
        validate_new_entry("Work", "1.1.1.1", "999.2.2.2", &entries).unwrap_err(),
        msg
    );
}

#[test]
fn successful_add_updates_selection_and_clears_form() {
    let mut core = DnsCore::new(Vec::new());
    core.set_add_inputs(
        " Work ".to_string(),
        "10.0.0.1".to_string(),
        "10.0.0.2".to_string(),
    );
    let validated = core.request_add().unwrap();
    assert_eq!(core.add_error, None);
    core.complete_add(validated, Ok(()));
    assert_eq!(core.saved_entries.len(), 1);
    assert_eq!(core.saved_entries[0].name, "Work");
    assert_eq!(
        core.selected_provider,
        DnsProvider::saved(
            "Work".to_string(),
            "10.0.0.1".to_string(),
            "10.0.0.2".to_string()
        )
    );
    assert_eq!(
        core.app_state,
        AppState::Success("DNS saved successfully!".to_string())
    );
    assert_eq!(core.new_name, "");
    assert_eq!(core.new_primary, "");
    assert_eq!(core.new_secondary, "");
}

#[test]
fn failed_persistence_rolls_back_nothing() {
    let mut core = DnsCore::new(Vec::new());
    core.set_add_inputs(
        "Work".to_string(),
        "10.0.0.1".to_string(),
        "10.0.0.2".to_string(),
    );
    let validated = core.request_add().unwrap();
    core.complete_add(validated, Err("disk full".to_string()));
    assert!(core.saved_entries.is_empty());
    assert_eq!(core.add_error, Some("Failed to save DNS: disk full".to_string()));
    // The form stays filled so the user can retry.
    assert_eq!(core.new_name, "Work");
}

#[test]
fn delete_removes_entry_and_falls_back_to_default() {
    let mut core = DnsCore::new(vec![
        entry("Home", "1.1.1.1", "1.0.0.1"),
        entry("Work", "10.0.0.1", "10.0.0.2"),
    ]);
    core.select_provider(DnsProvider::saved(
        "Work".to_string(),
        "10.0.0.1".to_string(),
        "10.0.0.2".to_string(),
    ));
    core.complete_delete("Work", Ok(()));
    assert_eq!(core.saved_entries.len(), 1);
    assert_eq!(core.saved_entries[0].name, "Home");
    assert_eq!(core.selected_provider, DnsProvider::electro());
    assert_eq!(core.app_state, AppState::Success("DNS entry deleted".to_string()));
}

#[test]
fn delete_of_unselected_entry_keeps_selection() {
    let mut core = DnsCore::new(vec![
        entry("Home", "1.1.1.1", "1.0.0.1"),
        entry("Work", "10.0.0.1", "10.0.0.2"),
    ]);
    core.select_provider(DnsProvider::quad9());
    core.complete_delete("Home", Ok(()));
    assert_eq!(core.saved_entries.len(), 1);
    assert_eq!(core.selected_provider, DnsProvider::quad9());
}

#[test]
fn failed_delete_changes_no_entries() {
    let mut core = DnsCore::new(vec![entry("Home", "1.1.1.1", "1.0.0.1")]);
    core.complete_delete("Home", Err("read-only store".to_string()));
    assert_eq!(core.saved_entries.len(), 1);
    assert_eq!(
        core.app_state,
        AppState::Error("Failed to delete DNS: read-only store".to_string())
    );
}

#[test]
fn add_saved_dns_appends() {
    let mut entries = vec![entry("Home", "1.1.1.1", "1.0.0.1")];
    add_saved_dns(&mut entries, entry("Work", "10.0.0.1", "10.0.0.2"));
    assert_eq!(entries.len(), 2);
    assert_eq!(entries[1].name, "Work");
}

#[test]
fn delete_saved_dns_removes_exact_name_only() {
    let mut entries = vec![
        entry("Home", "1.1.1.1", "1.0.0.1"),
        entry("Work", "10.0.0.1", "10.0.0.2"),
        entry("home", "9.9.9.9", "9.9.9.10"),
    ];
    delete_saved_dns(&mut entries, "Home");
    // Deletion is by the exact stored name; the differently-cased entry stays.
    assert_eq!(entries.len(), 2);
    assert_eq!(entries[0].name, "Work");
    assert_eq!(entries[1].name, "home");
}
