//! The terminator: what is decided for a TCP-AO connection that was
//! accepted and is to be carried on in plaintext to the local consumer.

use crate::addr::SocketAddress;
use crate::config::{policy_views, AoPolicyConfig, GlobalConfig, PolicyView};
use crate::error::{IoFailure, IoFailureView, ProxyError, ProxyErrorView};
use crate::forward::PumpOptions;
use crate::mode_initiator::no_policy_for;
use crate::sockopt::{keepalive_options, keepalive_plan, SocketOption};
use crate::tcpao::policy::{select_policy, selected};
use vstd::prelude::*;
use vstd::string::*;

verus! {

/// The name of this mode in diagnostics.
pub const MODE_LABEL: &'static str = "terminator";

/// The number of connections that may wait to be accepted.
pub const LISTEN_BACKLOG: i32 = 1024;

/// What is settled for one accepted connection before the local
/// connection is opened.
#[derive(Debug)]
pub struct InboundPlan<'a> {
    /// The policy that applies to the peer.
    pub policy: &'a AoPolicyConfig,
    /// The options to set on the local socket before it connects, and on
    /// both streams once it has.
    pub keepalive: Vec<SocketOption>,
    pub pump: PumpOptions,
}

/// The failure of the check of an accepted session, as the connection reports it.
pub open spec fn inbound_failure_view(cause: IoFailureView) -> ProxyErrorView {
    ProxyErrorView::TcpAo("inbound AO verification failed: "@ + cause.message)
}

/// The failure to arm the listener, as it is reported at startup.
pub open spec fn listener_failure_view(cause: IoFailureView) -> ProxyErrorView {
    ProxyErrorView::TcpAo("failed to configure listener AO policies: "@ + cause.message)
}

/// What becomes of a connection accepted from `peer`, given how the check
/// of its session ended: a session that failed the check is refused for
/// that; else the policy is chosen by the peer's address alone, its port
/// being of the peer's choosing, and without a policy the connection is
/// refused.
pub open spec fn admission(
    store: Seq<PolicyView>,
    peer: SocketAddress,
    session: Option<IoFailureView>,
) -> Result<PolicyView, ProxyErrorView> {
    match session {
        Some(cause) => Err(inbound_failure_view(cause)),
        None => match selected(store, peer.ip(), None) {
            Some(policy) => Ok(policy),
            None => Err(no_policy_for(peer)),
        },
    }
}

/// Plans the connection accepted from `peer`, where `session` is the
/// failure of the check of its session, if it failed.
pub fn plan_connection<'a>(
    policies: &'a [AoPolicyConfig],
    global: &GlobalConfig,
    peer: SocketAddress,
    session: Option<IoFailure>,
) -> (plan: Result<InboundPlan<'a>, ProxyError>)
    ensures
        match plan {
            Ok(p) => admission(
                policy_views(policies@),
                peer,
                match session {
                    Some(cause) => Some(cause@),
                    None => None,
                },
            ) == Ok::<_, ProxyErrorView>(p.policy@) && policies@.contains(*p.policy)
                && p.keepalive@ == keepalive_plan(*global) && p.pump.idle_timeout
                == global.spec_idle_timeout(),
            Err(e) => admission(
                policy_views(policies@),
                peer,
                match session {
                    Some(cause) => Some(cause@),
                    None => None,
                },
            ) == Err::<PolicyView, _>(e@),
        },
{
    if let Some(cause) = session {
        return Err(inbound_failure(&cause));
    }
    match select_policy(policies, peer.get_ip(), None) {
        Some(policy) => Ok(
            InboundPlan {
                policy,
                keepalive: keepalive_options(global),
                pump: PumpOptions { idle_timeout: global.idle_timeout() },
            },
        ),
        None => Err(ProxyError::NoPolicyForPeer(peer.to_text())),
    }
}

/// Reports the failure of the check of an accepted session.
pub fn inbound_failure(cause: &IoFailure) -> (error: ProxyError)
    ensures
        error@ == inbound_failure_view(cause@),
{
    ProxyError::TcpAo(
        String::from_str("inbound AO verification failed: ").concat(cause.message.as_str()),
    )
}

/// Reports the failure to arm the listener.
pub fn listener_failure(cause: &IoFailure) -> (error: ProxyError)
    ensures
        error@ == listener_failure_view(cause@),
{
    ProxyError::TcpAo(
        String::from_str("failed to configure listener AO policies: ").concat(
            cause.message.as_str(),
        ),
    )
}

} // verus!
