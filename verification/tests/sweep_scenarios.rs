use pingall::addr::{subnet_prefix, LocalAddress, SubnetPrefix};
use pingall::policy::{ProbeOutcome, ProbeStrategy};
use pingall::sweep::{sweep, sweep_into, ResultSet};

fn outcomes_reachable_at(reachable: &[usize]) -> Vec<ProbeOutcome> {
    let mut v = Vec::new();
    for suffix in 1..=254usize {
        if reachable.contains(&suffix) {
            v.push(ProbeOutcome::Reachable);
        } else {
            v.push(ProbeOutcome::Unreachable);
        }
    }
    v
}

fn no_resolutions() -> Vec<Option<String>> {
    let mut v = Vec::new();
    for _ in 0..254 {
        v.push(None);
    }
    v
}

#[test]
fn three_reachable_without_resolution() {
    let prefix = SubnetPrefix { a: 192, b: 168, c: 1 };
    let outcomes = outcomes_reachable_at(&[1, 50, 254]);
    let resolutions = no_resolutions();
    let set = sweep(
        prefix,
        ProbeStrategy::SystemProcess,
        true,
        &outcomes,
        false,
        &resolutions,
    );
    assert_eq!(set.len(), 3);
    assert!(set.contains_line(&"192.168.1.1".to_string()));
    assert!(set.contains_line(&"192.168.1.50".to_string()));
    assert!(set.contains_line(&"192.168.1.254".to_string()));
    assert!(!set.contains_line(&"192.168.1.2".to_string()));
}

#[test]
fn three_reachable_with_partial_resolution() {
    let prefix = SubnetPrefix { a: 192, b: 168, c: 1 };
    let outcomes = outcomes_reachable_at(&[1, 50, 254]);
    let mut resolutions = no_resolutions();
    resolutions[49] = Some("printer.local".to_string());
    let set = sweep(
        prefix,
        ProbeStrategy::SystemProcess,
        true,
        &outcomes,
        true,
        &resolutions,
    );
    assert_eq!(set.len(), 3);
    assert!(set.contains_line(&"192.168.1.1".to_string()));
    assert!(set.contains_line(&"printer.local".to_string()));
    assert!(set.contains_line(&"192.168.1.254".to_string()));
    assert!(!set.contains_line(&"192.168.1.50".to_string()));
}

#[test]
fn nothing_reachable_gives_empty_set() {
    let prefix = SubnetPrefix { a: 192, b: 168, c: 1 };
    let outcomes = outcomes_reachable_at(&[]);
    let resolutions = no_resolutions();
    let set = sweep(
        prefix,
        ProbeStrategy::SystemProcess,
        true,
        &outcomes,
        false,
        &resolutions,
    );
    assert_eq!(set.len(), 0);
}

#[test]
fn degraded_raw_socket_sweeps_nothing() {
    let prefix = SubnetPrefix { a: 192, b: 168, c: 1 };
    // The stub's "true" reachability table says three hosts answer, but the
    // capability self-test failed and raw-socket mode is forced.
    let outcomes = outcomes_reachable_at(&[1, 50, 254]);
    let resolutions = no_resolutions();
    let set = sweep(
        prefix,
        ProbeStrategy::RawSocket,
        false,
        &outcomes,
        false,
        &resolutions,
    );
    assert_eq!(set.len(), 0);
    assert!(!set.contains_line(&"192.168.1.1".to_string()));
}

#[test]
fn raw_socket_with_capability_sweeps_normally() {
    let prefix = SubnetPrefix { a: 192, b: 168, c: 1 };
    let outcomes = outcomes_reachable_at(&[9]);
    let resolutions = no_resolutions();
    let set = sweep(
        prefix,
        ProbeStrategy::RawSocket,
        true,
        &outcomes,
        false,
        &resolutions,
    );
    assert_eq!(set.len(), 1);
    assert!(set.contains_line(&"192.168.1.9".to_string()));
}

#[test]
fn sweeping_twice_is_idempotent() {
    let prefix = SubnetPrefix { a: 10, b: 0, c: 0 };
    let outcomes = outcomes_reachable_at(&[3, 7]);
    let resolutions = no_resolutions();
    let mut set = ResultSet::new();
    sweep_into(
        &mut set,
        prefix,
        ProbeStrategy::SystemProcess,
        true,
        &outcomes,
        false,
        &resolutions,
    );
    assert_eq!(set.len(), 2);
    sweep_into(
        &mut set,
        prefix,
        ProbeStrategy::SystemProcess,
        true,
        &outcomes,
        false,
        &resolutions,
    );
    assert_eq!(set.len(), 2);
    assert!(set.contains_line(&"10.0.0.3".to_string()));
    assert!(set.contains_line(&"10.0.0.7".to_string()));
}

#[test]
fn duplicate_subnet_from_two_interfaces_is_deduplicated() {
    // Two local addresses on the same /24: both sweeps run, the merged set
    // holds each reachable host once.
    let addr1 = LocalAddress { o0: 192, o1: 168, o2: 1, o3: 10 };
    let addr2 = LocalAddress { o0: 192, o1: 168, o2: 1, o3: 20 };
    let outcomes = outcomes_reachable_at(&[5]);
    let resolutions = no_resolutions();
    let mut set = ResultSet::new();
    for addr in [addr1, addr2] {
        let prefix = subnet_prefix(&addr);
        sweep_into(
            &mut set,
            prefix,
            ProbeStrategy::SystemProcess,
            true,
            &outcomes,
            false,
            &resolutions,
        );
    }
    assert_eq!(set.len(), 1);
    assert!(set.contains_line(&"192.168.1.5".to_string()));
}

#[test]
fn full_subnet_reachable_yields_254_lines() {
    let prefix = SubnetPrefix { a: 10, b: 1, c: 2 };
    let all: Vec<usize> = (1..=254).collect();
    let outcomes = outcomes_reachable_at(&all);
    let resolutions = no_resolutions();
    let set = sweep(
        prefix,
        ProbeStrategy::SystemProcess,
        true,
        &outcomes,
        false,
        &resolutions,
    );
    assert_eq!(set.len(), 254);
    assert!(set.contains_line(&"10.1.2.1".to_string()));
    assert!(set.contains_line(&"10.1.2.254".to_string()));
    assert!(!set.contains_line(&"10.1.2.0".to_string()));
    assert!(!set.contains_line(&"10.1.2.255".to_string()));
}

#[test]
fn empty_resolution_text_falls_back_to_address() {
    let prefix = SubnetPrefix { a: 172, b: 16, c: 0 };
    let outcomes = outcomes_reachable_at(&[1]);
    let mut resolutions = no_resolutions();
    resolutions[0] = Some(String::new());
    let set = sweep(
        prefix,
        ProbeStrategy::SystemProcess,
        true,
        &outcomes,
        true,
        &resolutions,
    );
    assert_eq!(set.len(), 1);
    assert!(set.contains_line(&"172.16.0.1".to_string()));
}

#[test]
fn resolution_ignored_when_disabled() {
    let prefix = SubnetPrefix { a: 172, b: 16, c: 0 };
    let outcomes = outcomes_reachable_at(&[1]);
    let mut resolutions = no_resolutions();
    resolutions[0] = Some("printer.local".to_string());
    let set = sweep(
        prefix,
        ProbeStrategy::SystemProcess,
        true,
        &outcomes,
        false,
        &resolutions,
    );
    assert_eq!(set.len(), 1);
    assert!(set.contains_line(&"172.16.0.1".to_string()));
    assert!(!set.contains_line(&"printer.local".to_string()));
}

#[test]
fn two_hosts_resolving_to_same_name_give_one_line() {
    let prefix = SubnetPrefix { a: 192, b: 168, c: 1 };
    let outcomes = outcomes_reachable_at(&[4, 8]);
    let mut resolutions = no_resolutions();
    resolutions[3] = Some("twin.local".to_string());
    resolutions[7] = Some("twin.local".to_string());
    let set = sweep(
        prefix,
        ProbeStrategy::SystemProcess,
        true,
        &outcomes,
        true,
        &resolutions,
    );
    assert_eq!(set.len(), 1);
    assert!(set.contains_line(&"twin.local".to_string()));
}
