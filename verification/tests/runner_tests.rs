use std::time::Duration;
use tcpao_proxy::addr::{IpAddress, SocketAddress};
use tcpao_proxy::config::{AoPolicyConfig, GlobalConfig, KeySource};
use tcpao_proxy::conn::ConnIds;
use tcpao_proxy::error::{IoFailure, IoKind, ProxyError};
use tcpao_proxy::metrics::Metrics;
use tcpao_proxy::sockopt::{keepalive_options, SocketOption};
use tcpao_proxy::{mode_initiator, mode_terminator};

fn policy(name: &str, peer_ip: IpAddress, peer_port: Option<u16>) -> AoPolicyConfig {
    AoPolicyConfig {
        name: name.to_string(),
        peer_ip,
        peer_port,
        keyid: 1,
        rnextkeyid: None,
        mac_alg: "hmac-sha1".to_string(),
        key_source: KeySource("env:K".to_string()),
    }
}

const PEER: IpAddress = IpAddress::V4(0x7f00_0001);

#[test]
fn error_messages_name_their_kind() {
    let io = ProxyError::Io(IoFailure::new(IoKind::Other, "broken pipe".to_string()));
    assert_eq!(io.message(), "io error: broken pipe");
    assert_eq!(
        ProxyError::Toml("expected `=`".to_string()).message(),
        "toml parse error: expected `=`"
    );
    assert_eq!(
        ProxyError::AddrParse("invalid socket address syntax".to_string()).message(),
        "address parse error: invalid socket address syntax"
    );
    assert_eq!(ProxyError::Config("x".to_string()).message(), "invalid config: x");
    assert_eq!(
        ProxyError::MissingModeConfig("initiator").message(),
        "missing mode config section: initiator"
    );
    assert_eq!(
        ProxyError::NoPolicyForPeer("10.0.0.2:1790".to_string()).message(),
        "no AO policy matched peer 10.0.0.2:1790"
    );
    assert_eq!(
        ProxyError::TcpAo("y".to_string()).message(),
        "tcp-ao unsupported or not configured: y"
    );
}

#[test]
fn io_failures_raised_here_carry_no_error_number() {
    let failure = IoFailure::new(IoKind::InvalidInput, "text".to_string());
    assert_eq!(failure.kind, IoKind::InvalidInput);
    assert_eq!(failure.os_code, None);
    assert_eq!(failure.message, "text");
}

#[test]
fn connection_identifiers_start_at_one() {
    let mut ids = ConnIds::new();
    assert_eq!(ids.allocate(), 1);
    assert_eq!(ids.allocate(), 2);
    assert_eq!(ids.allocate(), 3);
}

#[test]
fn metrics_count_connections() {
    let metrics = Metrics::default();
    assert_eq!(metrics.open_connections(), 0);
    assert_eq!(metrics.closed_connections(), 0);
    metrics.conn_opened();
    metrics.conn_opened();
    assert_eq!(metrics.open_connections(), 2);
    metrics.conn_closed();
    assert_eq!(metrics.open_connections(), 1);
    assert_eq!(metrics.closed_connections(), 1);
}

#[test]
fn keepalive_off_sets_nothing() {
    let mut global = GlobalConfig::default();
    global.keepalive_time_secs = Some(30);
    global.keepalive_probes = Some(3);
    assert_eq!(keepalive_options(&global), Vec::new());
}

#[test]
fn keepalive_sets_the_switch_then_each_tunable() {
    let mut global = GlobalConfig::default();
    global.tcp_keepalive = true;
    assert_eq!(keepalive_options(&global), vec![SocketOption::KeepAlive(1)]);

    global.keepalive_time_secs = Some(30);
    global.keepalive_intvl_secs = Some(10);
    global.keepalive_probes = Some(3);
    assert_eq!(
        keepalive_options(&global),
        vec![
            SocketOption::KeepAlive(1),
            SocketOption::KeepIdle(30),
            SocketOption::KeepInterval(10),
            SocketOption::KeepCount(3),
        ]
    );

    global.keepalive_time_secs = None;
    assert_eq!(
        keepalive_options(&global),
        vec![
            SocketOption::KeepAlive(1),
            SocketOption::KeepInterval(10),
            SocketOption::KeepCount(3),
        ]
    );
}

#[test]
fn keepalive_values_keep_their_low_bits() {
    let mut global = GlobalConfig::default();
    global.tcp_keepalive = true;
    global.keepalive_time_secs = Some(0x1_0000_0005);
    global.keepalive_intvl_secs = Some(u64::MAX);
    global.keepalive_probes = Some(u32::MAX);
    assert_eq!(
        keepalive_options(&global),
        vec![
            SocketOption::KeepAlive(1),
            SocketOption::KeepIdle(5),
            SocketOption::KeepInterval(-1),
            SocketOption::KeepCount(-1),
        ]
    );
}

#[test]
fn initiator_plans_by_remote_address_and_port() {
    let policies = vec![
        policy("any-port", PEER, None),
        policy("exact", PEER, Some(1790)),
    ];
    let mut global = GlobalConfig::default();
    global.tcp_keepalive = true;
    let remote = SocketAddress::new(PEER, 1790);
    let plan = mode_initiator::plan_connection(&policies, &global, remote).expect("plan");
    assert_eq!(plan.policy.name, "exact");
    assert_eq!(plan.keepalive, vec![SocketOption::KeepAlive(1)]);
    assert_eq!(plan.pump.idle_timeout, Some(Duration::from_secs(120)));

    let plan = mode_initiator::plan_connection(&policies, &global, SocketAddress::new(PEER, 1))
        .expect("plan");
    assert_eq!(plan.policy.name, "any-port");
}

#[test]
fn initiator_refuses_a_remote_without_policy() {
    let policies = vec![policy("exact", PEER, Some(1790))];
    let mut global = GlobalConfig::default();
    global.idle_timeout_secs = 0;
    let err = mode_initiator::plan_connection(
        &policies,
        &global,
        SocketAddress::new(IpAddress::V4(0x0a00_0009), 1790),
    )
    .expect_err("no policy");
    assert!(matches!(err, ProxyError::NoPolicyForPeer(_)));
    assert_eq!(err.message(), "no AO policy matched peer 10.0.0.9:1790");

    let err = mode_initiator::plan_connection(
        &policies,
        &global,
        SocketAddress::new(IpAddress::V6(1), 1790),
    )
    .expect_err("no policy");
    assert_eq!(err.message(), "no AO policy matched peer [::1]:1790");

    let plan = mode_initiator::plan_connection(&policies, &global, SocketAddress::new(PEER, 1790))
        .expect("plan");
    assert_eq!(plan.pump.idle_timeout, None);
    assert!(plan.keepalive.is_empty());
}

#[test]
fn initiator_reports_the_arming_failure() {
    let cause = IoFailure::new(IoKind::InvalidInput, "mac_alg must not be empty".to_string());
    let err = mode_initiator::outbound_failure(&cause);
    assert!(matches!(err, ProxyError::TcpAo(_)));
    assert_eq!(
        err.message(),
        "tcp-ao unsupported or not configured: failed to apply outbound AO policy: mac_alg must not be empty"
    );
}

#[test]
fn terminator_plans_by_peer_address_alone() {
    let policies = vec![policy("with-port", PEER, Some(1790))];
    let global = GlobalConfig::default();
    let peer = SocketAddress::new(PEER, 40000);
    let plan = mode_terminator::plan_connection(&policies, &global, peer, None).expect("plan");
    assert_eq!(plan.policy.name, "with-port");
    assert_eq!(plan.pump.idle_timeout, Some(Duration::from_secs(120)));
    assert!(plan.keepalive.is_empty());
}

#[test]
fn terminator_refuses_an_ambiguous_peer() {
    let policies = vec![
        policy("a", PEER, Some(1790)),
        policy("b", PEER, Some(1791)),
    ];
    let global = GlobalConfig::default();
    let err = mode_terminator::plan_connection(
        &policies,
        &global,
        SocketAddress::new(PEER, 1790),
        None,
    )
    .expect_err("ambiguous");
    assert_eq!(err.message(), "no AO policy matched peer 127.0.0.1:1790");
}

#[test]
fn terminator_checks_the_session_before_the_policy() {
    let global = GlobalConfig::default();
    let cause = IoFailure::new(
        IoKind::PermissionDenied,
        "tcp-ao not required on inbound session".to_string(),
    );
    let err = mode_terminator::plan_connection(
        &[],
        &global,
        SocketAddress::new(PEER, 1790),
        Some(cause.clone()),
    )
    .expect_err("session failed");
    assert!(matches!(err, ProxyError::TcpAo(_)));
    assert_eq!(
        err.message(),
        "tcp-ao unsupported or not configured: inbound AO verification failed: tcp-ao not required on inbound session"
    );

    let policies = vec![policy("a", PEER, None)];
    let err = mode_terminator::plan_connection(
        &policies,
        &global,
        SocketAddress::new(PEER, 1790),
        Some(cause),
    )
    .expect_err("session failed");
    assert!(matches!(err, ProxyError::TcpAo(_)));
}

#[test]
fn terminator_reports_the_listener_failure() {
    let cause = IoFailure::new(
        IoKind::InvalidInput,
        "no AO policies matched listener address family".to_string(),
    );
    let err = mode_terminator::listener_failure(&cause);
    assert_eq!(
        err.message(),
        "tcp-ao unsupported or not configured: failed to configure listener AO policies: no AO policies matched listener address family"
    );
    assert_eq!(mode_terminator::LISTEN_BACKLOG, 1024);
    assert_eq!(mode_terminator::MODE_LABEL, "terminator");
}
