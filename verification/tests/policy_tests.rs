use tcpao_proxy::addr::IpAddress;
use tcpao_proxy::config::{AoPolicyConfig, KeySource};
use tcpao_proxy::tcpao::policy::select_policy;

/// Reads a dotted-decimal IPv4 address.
fn ip(text: &str) -> IpAddress {
    let mut bits: u32 = 0;
    let mut count = 0;
    for part in text.split('.') {
        let octet: u8 = part.parse().expect("valid ip");
        bits = (bits << 8) | u32::from(octet);
        count += 1;
    }
    assert_eq!(count, 4, "valid ip");
    IpAddress::V4(bits)
}

fn entry(name: &str, peer_ip: &str, peer_port: Option<u16>) -> AoPolicyConfig {
    AoPolicyConfig {
        name: name.to_string(),
        peer_ip: ip(peer_ip),
        peer_port,
        keyid: 1,
        rnextkeyid: None,
        mac_alg: "hmac-sha256".to_string(),
        key_source: KeySource("env:KEY".to_string()),
    }
}

fn chosen(policies: &[AoPolicyConfig], peer_ip: &str, peer_port: Option<u16>) -> Option<String> {
    select_policy(policies, ip(peer_ip), peer_port).map(|policy| policy.name.clone())
}

/// Every order of the policies.
fn orders(policies: &[AoPolicyConfig]) -> Vec<Vec<AoPolicyConfig>> {
    if policies.len() <= 1 {
        return vec![policies.to_vec()];
    }
    let mut all = Vec::new();
    for first in 0..policies.len() {
        let mut rest = policies.to_vec();
        let head = rest.remove(first);
        for mut tail in orders(&rest) {
            tail.insert(0, head.clone());
            all.push(tail);
        }
    }
    all
}

#[test]
fn policy_match_with_port_preference() {
    let policies = vec![
        AoPolicyConfig {
            name: "no-port".to_string(),
            peer_ip: ip("10.0.0.2"),
            peer_port: None,
            keyid: 1,
            rnextkeyid: None,
            mac_alg: "hmac-sha256".to_string(),
            key_source: KeySource("env:KEY".to_string()),
        },
        AoPolicyConfig {
            name: "with-port".to_string(),
            peer_ip: ip("10.0.0.2"),
            peer_port: Some(1790),
            keyid: 1,
            rnextkeyid: None,
            mac_alg: "hmac-sha256".to_string(),
            key_source: KeySource("env:KEY".to_string()),
        },
    ];

    let matched = select_policy(&policies, ip("10.0.0.2"), Some(1790)).expect("matching policy");

    assert_eq!(matched.name, "with-port");
}

#[test]
fn policy_falls_back_to_ip_match_when_port_is_missing() {
    let policies = vec![AoPolicyConfig {
        name: "no-port".to_string(),
        peer_ip: ip("10.0.0.2"),
        peer_port: None,
        keyid: 1,
        rnextkeyid: None,
        mac_alg: "hmac-sha256".to_string(),
        key_source: KeySource("env:KEY".to_string()),
    }];

    let matched = select_policy(&policies, ip("10.0.0.2"), Some(1790)).expect("matching policy");

    assert_eq!(matched.name, "no-port");
}

#[test]
fn policy_matches_port_specific_entry_when_port_is_unavailable() {
    let policies = vec![AoPolicyConfig {
        name: "with-port".to_string(),
        peer_ip: ip("10.0.0.2"),
        peer_port: Some(1790),
        keyid: 1,
        rnextkeyid: None,
        mac_alg: "hmac-sha256".to_string(),
        key_source: KeySource("env:KEY".to_string()),
    }];

    let matched = select_policy(&policies, ip("10.0.0.2"), None).expect("matching policy");

    assert_eq!(matched.name, "with-port");
}

#[test]
fn policy_unknown_port_prefers_ip_only_if_present() {
    let policies = vec![
        AoPolicyConfig {
            name: "with-port".to_string(),
            peer_ip: ip("10.0.0.2"),
            peer_port: Some(1790),
            keyid: 1,
            rnextkeyid: None,
            mac_alg: "hmac-sha256".to_string(),
            key_source: KeySource("env:KEY".to_string()),
        },
        AoPolicyConfig {
            name: "ip-only".to_string(),
            peer_ip: ip("10.0.0.2"),
            peer_port: None,
            keyid: 1,
            rnextkeyid: None,
            mac_alg: "hmac-sha256".to_string(),
            key_source: KeySource("env:KEY".to_string()),
        },
    ];

    let matched = select_policy(&policies, ip("10.0.0.2"), None).expect("matching policy");

    assert_eq!(matched.name, "ip-only");
}

#[test]
fn policy_unknown_port_fails_when_multiple_port_policies_exist_without_ip_only() {
    let policies = vec![
        AoPolicyConfig {
            name: "with-port-a".to_string(),
            peer_ip: ip("10.0.0.2"),
            peer_port: Some(1790),
            keyid: 1,
            rnextkeyid: None,
            mac_alg: "hmac-sha256".to_string(),
            key_source: KeySource("env:KEY".to_string()),
        },
        AoPolicyConfig {
            name: "with-port-b".to_string(),
            peer_ip: ip("10.0.0.2"),
            peer_port: Some(1791),
            keyid: 1,
            rnextkeyid: None,
            mac_alg: "hmac-sha256".to_string(),
            key_source: KeySource("env:KEY".to_string()),
        },
    ];

    let matched = select_policy(&policies, ip("10.0.0.2"), None);

    assert!(matched.is_none(), "ambiguous unknown-port match must fail");
}

#[test]
fn policy_order_does_not_change_outcome_for_unknown_port() {
    let forward = vec![
        AoPolicyConfig {
            name: "with-port".to_string(),
            peer_ip: ip("10.0.0.2"),
            peer_port: Some(1790),
            keyid: 1,
            rnextkeyid: None,
            mac_alg: "hmac-sha256".to_string(),
            key_source: KeySource("env:KEY".to_string()),
        },
        AoPolicyConfig {
            name: "ip-only".to_string(),
            peer_ip: ip("10.0.0.2"),
            peer_port: None,
            keyid: 1,
            rnextkeyid: None,
            mac_alg: "hmac-sha256".to_string(),
            key_source: KeySource("env:KEY".to_string()),
        },
    ];
    let reversed = vec![forward[1].clone(), forward[0].clone()];

    let m1 = select_policy(&forward, ip("10.0.0.2"), None).expect("matching policy");
    let m2 = select_policy(&reversed, ip("10.0.0.2"), None).expect("matching policy");

    assert_eq!(m1.name, m2.name);
    assert_eq!(m1.name, "ip-only");
}

#[test]
fn empty_store_matches_nothing() {
    assert_eq!(chosen(&[], "10.0.0.2", Some(1790)), None);
    assert_eq!(chosen(&[], "10.0.0.2", None), None);
}

#[test]
fn other_addresses_do_not_match() {
    let policies = vec![
        entry("a", "10.0.0.2", None),
        entry("b", "10.0.0.3", Some(1790)),
    ];
    assert_eq!(chosen(&policies, "10.0.0.4", Some(1790)), None);
    assert_eq!(chosen(&policies, "10.0.0.4", None), None);
    assert_eq!(chosen(&policies, "10.0.0.3", Some(1791)), None);
    assert_eq!(chosen(&policies, "10.0.0.3", None), Some("b".to_string()));
    assert_eq!(chosen(&policies, "10.0.0.2", Some(7)), Some("a".to_string()));
}

#[test]
fn address_families_are_told_apart() {
    let mut six = entry("six", "0.0.0.1", None);
    six.peer_ip = IpAddress::V6(1);
    let policies = vec![entry("four", "0.0.0.1", None), six];
    assert_eq!(
        select_policy(&policies, IpAddress::V4(1), None).map(|p| p.name.as_str()),
        Some("four")
    );
    assert_eq!(
        select_policy(&policies, IpAddress::V6(1), Some(179)).map(|p| p.name.as_str()),
        Some("six")
    );
}

#[test]
fn known_port_takes_exact_then_any_port_then_nothing() {
    let policies = vec![
        entry("other-port", "10.0.0.2", Some(1791)),
        entry("any-port", "10.0.0.2", None),
        entry("exact", "10.0.0.2", Some(1790)),
    ];
    assert_eq!(chosen(&policies, "10.0.0.2", Some(1790)), Some("exact".to_string()));
    assert_eq!(chosen(&policies, "10.0.0.2", Some(1791)), Some("other-port".to_string()));
    assert_eq!(chosen(&policies, "10.0.0.2", Some(1792)), Some("any-port".to_string()));

    let without_fallback = vec![entry("other-port", "10.0.0.2", Some(1791))];
    assert_eq!(chosen(&without_fallback, "10.0.0.2", Some(1790)), None);
}

#[test]
fn unknown_port_with_several_any_port_policies_matches_nothing() {
    let policies = vec![
        entry("first", "10.0.0.2", None),
        entry("second", "10.0.0.2", None),
    ];
    assert_eq!(chosen(&policies, "10.0.0.2", None), None);
}

#[test]
fn known_port_with_repeated_peer_takes_the_first_declared() {
    let policies = vec![
        entry("first", "10.0.0.2", Some(1790)),
        entry("second", "10.0.0.2", Some(1790)),
    ];
    assert_eq!(chosen(&policies, "10.0.0.2", Some(1790)), Some("first".to_string()));
}

#[test]
fn the_chosen_policy_is_one_of_the_store() {
    let policies = vec![
        entry("a", "10.0.0.2", Some(1790)),
        entry("b", "10.0.0.2", None),
    ];
    let matched = select_policy(&policies, ip("10.0.0.2"), Some(1790)).expect("matching policy");
    assert!(std::ptr::eq(matched, &policies[0]));
    let matched = select_policy(&policies, ip("10.0.0.2"), Some(1)).expect("matching policy");
    assert!(std::ptr::eq(matched, &policies[1]));
}

#[test]
fn order_is_irrelevant_where_peers_are_unique() {
    let policies = vec![
        entry("a-1790", "10.0.0.2", Some(1790)),
        entry("a-1791", "10.0.0.2", Some(1791)),
        entry("a-any", "10.0.0.2", None),
        entry("b-1790", "10.0.0.3", Some(1790)),
    ];
    let queries = [
        ("10.0.0.2", Some(1790)),
        ("10.0.0.2", Some(1791)),
        ("10.0.0.2", Some(1792)),
        ("10.0.0.2", None),
        ("10.0.0.3", Some(1790)),
        ("10.0.0.3", Some(1791)),
        ("10.0.0.3", None),
        ("10.0.0.4", None),
    ];
    let expected = [
        Some("a-1790"),
        Some("a-1791"),
        Some("a-any"),
        Some("a-any"),
        Some("b-1790"),
        None,
        Some("b-1790"),
        None,
    ];
    let all = orders(&policies);
    assert_eq!(all.len(), 24);
    for store in &all {
        for (query, want) in queries.iter().zip(expected.iter()) {
            assert_eq!(
                chosen(store, query.0, query.1),
                want.map(|name| name.to_string())
            );
        }
    }
}

#[test]
fn order_is_irrelevant_for_unknown_port_even_with_repeated_peers() {
    let policies = vec![
        entry("x", "10.0.0.2", Some(1790)),
        entry("y", "10.0.0.2", Some(1790)),
        entry("z", "10.0.0.2", None),
    ];
    for store in orders(&policies) {
        assert_eq!(chosen(&store, "10.0.0.2", None), Some("z".to_string()));
    }
    let ambiguous = vec![
        entry("x", "10.0.0.2", None),
        entry("y", "10.0.0.2", None),
        entry("z", "10.0.0.2", Some(1790)),
    ];
    for store in orders(&ambiguous) {
        assert_eq!(chosen(&store, "10.0.0.2", None), None);
    }
}
