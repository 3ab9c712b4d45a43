//! The initiator: what is decided for a plaintext connection that is to be
//! carried on over a TCP-AO connection to the fixed remote peer.

use crate::addr::SocketAddress;
use crate::config::{policy_views, AoPolicyConfig, GlobalConfig};
use crate::error::{IoFailure, IoFailureView, ProxyError, ProxyErrorView};
use crate::forward::PumpOptions;
use crate::sockopt::{keepalive_options, keepalive_plan, SocketOption};
use crate::tcpao::policy::{select_policy, selected};
use vstd::prelude::*;
use vstd::string::*;

verus! {

/// What is settled for one connection before any socket is touched.
#[derive(Debug)]
pub struct OutboundPlan<'a> {
    /// The policy whose key arms the socket before it connects.
    pub policy: &'a AoPolicyConfig,
    /// The options to set on the socket before it connects, and on both
    /// streams once it has.
    pub keepalive: Vec<SocketOption>,
    pub pump: PumpOptions,
}

/// The error for a peer to which no policy applies.
pub open spec fn no_policy_for(peer: SocketAddress) -> ProxyErrorView {
    ProxyErrorView::NoPolicyForPeer(peer.text())
}

/// The failure to arm the outbound socket, as the connection reports it.
pub open spec fn outbound_failure_view(cause: IoFailureView) -> ProxyErrorView {
    ProxyErrorView::TcpAo("failed to apply outbound AO policy: "@ + cause.message)
}

/// Plans the connection to `remote`: the policy is chosen by the remote
/// address and port; without one the connection is refused.
pub fn plan_connection<'a>(
    policies: &'a [AoPolicyConfig],
    global: &GlobalConfig,
    remote: SocketAddress,
) -> (plan: Result<OutboundPlan<'a>, ProxyError>)
    ensures
        match plan {
            Ok(p) => selected(policy_views(policies@), remote.ip(), Some(remote.port())) == Some(
                p.policy@,
            ) && policies@.contains(*p.policy) && p.keepalive@ == keepalive_plan(*global)
                && p.pump.idle_timeout == global.spec_idle_timeout(),
            Err(e) => selected(policy_views(policies@), remote.ip(), Some(remote.port())) is None
                && e@ == no_policy_for(remote),
        },
{
    match select_policy(policies, remote.get_ip(), Some(remote.get_port())) {
        Some(policy) => Ok(
            OutboundPlan {
                policy,
                keepalive: keepalive_options(global),
                pump: PumpOptions { idle_timeout: global.idle_timeout() },
            },
        ),
        None => Err(ProxyError::NoPolicyForPeer(remote.to_text())),
    }
}

/// Reports the failure to arm the outbound socket.
pub fn outbound_failure(cause: &IoFailure) -> (error: ProxyError)
    ensures
        error@ == outbound_failure_view(cause@),
{
    ProxyError::TcpAo(
        String::from_str("failed to apply outbound AO policy: ").concat(cause.message.as_str()),
    )
}

} // verus!
