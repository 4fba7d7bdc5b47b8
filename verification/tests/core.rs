//! Tests of the application core: dispatching, result folding, DNS-state
//! derivation, and the latency monitor's bounded history.

use dnsight::domain::{AppState, DnsOperation, DnsProvider, DnsState, OperationResult};
use dnsight::state::{
    apply_outcome, clear_outcome, derive_dns_state, test_outcome, DnsCore, OperationPlan,
};

fn fresh_core() -> DnsCore {
    DnsCore::new(Vec::new())
}

#[test]
fn dispatch_enters_processing_and_occupies_slot() {
    let mut core = fresh_core();
    let plan = core.dispatch(DnsOperation::Test, Some("eth0".to_string()));
    assert_eq!(core.app_state, AppState::Processing);
    assert!(core.pending);
    match plan {
        OperationPlan::QueryCall { adapter } => assert_eq!(adapter, "eth0"),
        _ => panic!("a test dispatch with an adapter must plan a query"),
    }
}

#[test]
fn one_result_folded_per_dispatch() {
    let mut core = fresh_core();
    core.dispatch(DnsOperation::Test, Some("eth0".to_string()));
    let first = core.fold_result(OperationResult::Warning("No DNS servers configured".to_string()));
    assert!(!first);
    assert_eq!(
        core.app_state,
        AppState::Warning("No DNS servers configured".to_string())
    );
    assert!(!core.pending);
    // A stale second result from an earlier cycle must not overwrite anything.
    core.fold_result(OperationResult::Success("late".to_string()));
    assert_eq!(
        core.app_state,
        AppState::Warning("No DNS servers configured".to_string())
    );
    assert!(!core.pending);
}

#[test]
fn overlapping_dispatch_replaces_slot_cleanly() {
    let mut core = fresh_core();
    core.dispatch(DnsOperation::Clear, Some("eth0".to_string()));
    // A second dispatch while the first is processing replaces the slot.
    core.dispatch(DnsOperation::Test, Some("eth0".to_string()));
    assert_eq!(core.app_state, AppState::Processing);
    assert!(core.pending);
    let refresh = core.fold_result(OperationResult::Success("ok".to_string()));
    assert!(refresh);
    assert_eq!(core.app_state, AppState::Success("ok".to_string()));
    // Exactly one Processing -> terminal transition happened for this cycle.
    core.fold_result(OperationResult::Error("stale".to_string()));
    assert_eq!(core.app_state, AppState::Success("ok".to_string()));
}

#[test]
fn no_adapter_short_circuits_all_operations() {
    for op in [
        DnsOperation::Apply(DnsProvider::quad9()),
        DnsOperation::Clear,
        DnsOperation::Test,
    ] {
        let mut core = fresh_core();
        let plan = core.dispatch(op, None);
        match plan {
            OperationPlan::Respond(OperationResult::Error(m)) => {
                assert_eq!(m, "No Internet Connection Found");
            }
            _ => panic!("with no adapter the plan must be an immediate error"),
        }
    }
}

#[test]
fn derivation_empty_list_is_unconfigured() {
    let dns: Vec<String> = Vec::new();
    assert_eq!(derive_dns_state(&dns), DnsState::Unconfigured);
}

#[test]
fn derivation_single_marker_is_dhcp() {
    let dns = vec!["dhcp-assigned".to_string()];
    assert_eq!(derive_dns_state(&dns), DnsState::Dhcp);
}

#[test]
fn derivation_other_lists_are_static() {
    let dns = vec!["8.8.8.8".to_string(), "8.8.4.4".to_string()];
    assert_eq!(derive_dns_state(&dns), DnsState::Static(dns.clone()));
    let one = vec!["9.9.9.9".to_string()];
    assert_eq!(derive_dns_state(&one), DnsState::Static(one.clone()));
}

#[test]
fn derivation_is_pure() {
    let dns = vec!["10.0.0.1".to_string(), "10.0.0.2".to_string()];
    assert_eq!(derive_dns_state(&dns), derive_dns_state(&dns));
    let empty: Vec<String> = Vec::new();
    assert_eq!(derive_dns_state(&empty), derive_dns_state(&empty));
}

#[test]
fn refresh_keeps_status_in_step() {
    let mut core = fresh_core();
    core.refresh_dns(vec!["1.1.1.1".to_string()]);
    assert_eq!(core.dns_state, DnsState::Static(vec!["1.1.1.1".to_string()]));
    core.refresh_dns(Vec::new());
    assert_eq!(core.dns_state, DnsState::Unconfigured);
}

#[test]
fn test_outcome_empty_warns_nonempty_succeeds() {
    let empty: Vec<String> = Vec::new();
    assert_eq!(
        test_outcome(&empty),
        OperationResult::Warning("No DNS servers configured".to_string())
    );
    let two = vec!["8.8.8.8".to_string(), "8.8.4.4".to_string()];
    assert_eq!(
        test_outcome(&two),
        OperationResult::Success("DNS test successful: 8.8.8.8, 8.8.4.4".to_string())
    );
}

#[test]
fn scenario_test_with_no_servers_ends_in_warning() {
    let mut core = fresh_core();
    core.dispatch(DnsOperation::Test, Some("eth0".to_string()));
    let servers: Vec<String> = Vec::new();
    let result = test_outcome(&servers);
    core.fold_result(result);
    assert_eq!(
        core.app_state,
        AppState::Warning("No DNS servers configured".to_string())
    );
}

#[test]
fn scenario_test_with_two_servers_ends_in_success() {
    let mut core = fresh_core();
    core.dispatch(DnsOperation::Test, Some("eth0".to_string()));
    let servers = vec!["8.8.8.8".to_string(), "8.8.4.4".to_string()];
    let result = test_outcome(&servers);
    let refresh = core.fold_result(result);
    assert!(refresh);
    assert_eq!(
        core.app_state,
        AppState::Success("DNS test successful: 8.8.8.8, 8.8.4.4".to_string())
    );
}

#[test]
fn scenario_apply_failure_surfaces_verbatim_and_keeps_status() {
    let mut core = fresh_core();
    core.refresh_dns(vec!["1.0.0.1".to_string()]);
    let before = core.dns_state.clone();
    core.dispatch(DnsOperation::Apply(DnsProvider::quad9()), Some("eth0".to_string()));
    let result = apply_outcome(Err("permission denied".to_string()));
    let refresh = core.fold_result(result);
    assert!(!refresh);
    assert_eq!(core.app_state, AppState::Error("permission denied".to_string()));
    assert_eq!(core.dns_state, before);
}

#[test]
fn apply_and_clear_success_messages() {
    assert_eq!(
        apply_outcome(Ok(())),
        OperationResult::Success("DNS applied successfully".to_string())
    );
    assert_eq!(
        clear_outcome(Ok(())),
        OperationResult::Success("DNS cleared successfully".to_string())
    );
    assert_eq!(
        clear_outcome(Err("permission denied".to_string())),
        OperationResult::Error("permission denied".to_string())
    );
}

#[test]
fn apply_plan_carries_provider_servers() {
    let mut core = fresh_core();
    let plan = core.dispatch(
        DnsOperation::Apply(DnsProvider::quad9()),
        Some("wlan0".to_string()),
    );
    match plan {
        OperationPlan::ApplyCall { adapter, primary, secondary } => {
            assert_eq!(adapter, "wlan0");
            assert_eq!(primary, "9.9.9.9");
            assert_eq!(secondary, "149.112.112.112");
        }
        _ => panic!("an apply dispatch with an adapter must plan an apply call"),
    }
}

#[test]
fn history_keeps_last_fifteen_in_order() {
    let mut core = fresh_core();
    core.start_monitor();
    for ms in 1..=30u64 {
        core.record_sample(ms);
    }
    let expected: Vec<u64> = (16..=30).collect();
    assert_eq!(core.ping_history, expected);
}

#[test]
fn scenario_monitor_samples_then_stop() {
    let mut core = fresh_core();
    core.start_monitor();
    core.record_sample(20);
    core.record_sample(0);
    core.record_sample(35);
    assert_eq!(core.ping_history, vec![20, 0, 35]);
    core.stop_monitor();
    assert!(core.ping_history.is_empty());
    // No further samples are accepted after the monitor stopped.
    core.record_sample(50);
    assert!(core.ping_history.is_empty());
}

#[test]
fn start_monitor_is_idempotent() {
    let mut core = fresh_core();
    assert!(core.start_monitor());
    core.record_sample(12);
    assert!(!core.start_monitor());
    assert_eq!(core.ping_history, vec![12]);
}
