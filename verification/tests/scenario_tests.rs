use std::time::Duration;
use tcpao_proxy::addr::{IpAddress, SocketAddress};
use tcpao_proxy::config::{
    AoPolicyConfig, Config, GlobalConfig, InitiatorConfig, KeySource, KeySourceKind, Mode,
    TerminatorConfig,
};
use tcpao_proxy::forward::{CloseReason, Pump, PumpAction, PumpEvent};
use tcpao_proxy::tcpao::linux::{
    apply_outbound_policy, configure_listener, ensure_inbound_session_has_ao, AoInfo,
    InboundSession, KeyedPolicy,
};
use tcpao_proxy::tcpao::record::KernelSockaddr;
use tcpao_proxy::{mode_initiator, mode_terminator};

const LOOPBACK: IpAddress = IpAddress::V4(0x7f00_0001);

fn loopback_policy() -> AoPolicyConfig {
    AoPolicyConfig {
        name: "loopback".to_string(),
        peer_ip: LOOPBACK,
        peer_port: None,
        keyid: 1,
        rnextkeyid: None,
        mac_alg: "hmac-sha1".to_string(),
        key_source: KeySource("env:K".to_string()),
    }
}

fn key_of(policy: &AoPolicyConfig) -> Vec<u8> {
    match policy.key_source.kind().expect("valid key source") {
        KeySourceKind::Env(name) => {
            assert_eq!(name, "K");
            KeySource::key_from_env(&name, Some("tcpao-functional-key".to_string())).expect("key")
        }
        KeySourceKind::File(_) => panic!("unexpected key source kind"),
    }
}

/// What both sidecars decide for one echo through them, from the
/// configuration to the last byte, with the kernel and the sockets left out.
#[test]
fn echo_through_both_sidecars() {
    let terminator = Config {
        global: GlobalConfig::default(),
        initiator: None,
        terminator: Some(TerminatorConfig {
            listen_ao: "127.0.0.1:2002".to_string(),
            forward_plain: "127.0.0.1:2003".to_string(),
        }),
        ao_policy: vec![loopback_policy()],
    };
    let initiator = Config {
        global: GlobalConfig::default(),
        initiator: Some(InitiatorConfig {
            listen_plain: "127.0.0.1:2001".to_string(),
            remote_ao: "127.0.0.1:2002".to_string(),
        }),
        terminator: None,
        ao_policy: vec![loopback_policy()],
    };
    assert!(terminator.validate(Mode::Terminator).is_ok());
    assert!(terminator.validate(Mode::Initiator).is_err());
    assert!(initiator.validate(Mode::Initiator).is_ok());
    assert!(initiator.validate(Mode::Terminator).is_err());

    // The terminator arms its listener.
    let listen = SocketAddress::new(LOOPBACK, 2002);
    let keyed: Vec<KeyedPolicy> = terminator
        .ao_policy
        .iter()
        .map(|policy| KeyedPolicy { policy, key: key_of(policy) })
        .collect();
    let listener = configure_listener(listen, &keyed).expect("listener arming");
    assert_eq!(listener.keys.len(), 1);
    assert!(listener.keys[0].set_current && listener.keys[0].set_rnext);
    assert_eq!(listener.keys[0].prefix, 32);
    assert_eq!(listener.keys[0].keylen, 20);
    assert!(matches!(
        listener.keys[0].addr,
        KernelSockaddr::Inet { port: [0, 0], addr: [127, 0, 0, 1] }
    ));
    assert!(listener.info.ao_required);

    // The initiator takes a plaintext connection and arms its way out.
    let plan = mode_initiator::plan_connection(&initiator.ao_policy, &initiator.global, listen)
        .expect("outbound plan");
    assert_eq!(plan.policy.name, "loopback");
    assert_eq!(plan.pump.idle_timeout, Some(Duration::from_secs(120)));
    let outbound = apply_outbound_policy(plan.policy, listen, &key_of(plan.policy))
        .expect("outbound arming");
    assert_eq!(outbound.keys.len(), 1);
    assert!(outbound.keys[0].set_current);
    assert_eq!(outbound.keys[0].key, listener.keys[0].key);
    assert_eq!(outbound.keys[0].alg_name, listener.keys[0].alg_name);
    assert_eq!(outbound.keys[0].maclen, 12);
    assert!(matches!(
        outbound.keys[0].addr,
        KernelSockaddr::Inet { port: [0x07, 0xd2], addr: [127, 0, 0, 1] }
    ));

    // The terminator accepts it from a port of the initiator's choosing.
    let session = ensure_inbound_session_has_ao(Ok(AoInfo { ao_required: true }));
    assert_eq!(session.expect("verified"), InboundSession::Verified);
    let accepted = mode_terminator::plan_connection(
        &terminator.ao_policy,
        &terminator.global,
        SocketAddress::new(LOOPBACK, 51234),
        None,
    )
    .expect("inbound plan");
    assert_eq!(accepted.policy.name, "loopback");

    // Nineteen bytes go up and come back on each sidecar.
    let payload = "hello-through-tcpao";
    assert_eq!(payload.len(), 19);
    for options in [plan.pump, accepted.pump] {
        let mut pump = Pump::new(options);
        let up = pump.step(PumpEvent::SourceRead(payload.len()));
        assert!(matches!(up, PumpAction::WriteToDestination { len: 19 }));
        pump.step(PumpEvent::Written);
        let down = pump.step(PumpEvent::DestinationRead(payload.len()));
        assert!(matches!(down, PumpAction::WriteToSource { len: 19 }));
        pump.step(PumpEvent::Written);
        pump.step(PumpEvent::SourceRead(0));
        let stats = pump.finish(Duration::from_millis(12)).expect("closed");
        assert_eq!(stats.bytes_up, 19);
        assert_eq!(stats.bytes_down, 19);
        assert_eq!(stats.reason, CloseReason::SourceEof);
    }
}

/// A proxied connection on which both ends stay silent.
#[test]
fn silence_ends_in_an_idle_timeout() {
    let mut global = GlobalConfig::default();
    global.idle_timeout_secs = 2;
    let policies = vec![loopback_policy()];
    let plan = mode_terminator::plan_connection(
        &policies,
        &global,
        SocketAddress::new(LOOPBACK, 40000),
        None,
    )
    .expect("plan");
    let mut pump = Pump::new(plan.pump);
    assert!(matches!(
        pump.action(),
        PumpAction::Await { idle_timer: Some(window) } if window == Duration::from_secs(2)
    ));
    assert!(pump.accepts(PumpEvent::IdleTimeout));
    let last = pump.step(PumpEvent::IdleTimeout);
    assert!(matches!(
        last,
        PumpAction::Close {
            shutdown_source: true,
            shutdown_destination: true,
            reason: CloseReason::IdleTimeout
        }
    ));
    let stats = pump.finish(Duration::from_secs(2)).expect("closed");
    assert_eq!(stats.reason, CloseReason::IdleTimeout);
    assert_eq!(stats.bytes_up + stats.bytes_down, 0);
}
