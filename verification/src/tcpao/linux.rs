//! The four TCP-AO operations on a socket: what the host kernel is told to
//! arm it, and what is made of the kernel's answers. Nothing here touches
//! a socket: each function computes what to hand to the kernel, or judges
//! what came back.

use crate::addr::{IpAddress, SocketAddress};
use crate::config::{AoPolicyConfig, PolicyView};
use crate::error::{IoFailure, IoFailureView, IoKind, ProxyError, ProxyErrorView};
use crate::tcpao::record::{install_key, key_install, KeyInstall, KeyInstallView};
use vstd::prelude::*;
use vstd::string::*;

verus! {

/// Name of the environment variable that switches TCP-AO off in debug builds.
pub const TEST_BYPASS_ENV: &'static str = "TCPAO_PROXY_TEST_NO_AO";

/// How TCP-AO operations behave on this host.
#[derive(Clone, Copy, Debug, PartialEq, Eq, Structural)]
pub enum AoMode {
    /// The kernel is programmed.
    Native,
    /// Every operation succeeds without doing anything.
    Bypass,
    /// The host has no TCP-AO: every operation fails as unsupported.
    Unavailable,
}

/// Whether the test bypass is on: only in a debug build, and only if the
/// variable is set to `1`, `true` or `TRUE`.
pub open spec fn bypass_allowed(debug_build: bool, value: Option<Seq<char>>) -> bool {
    debug_build && match value {
        Some(v) => v == "1"@ || v == "true"@ || v == "TRUE"@,
        None => false,
    }
}

/// Decides on the test bypass from the kind of build and the value of the
/// variable `TEST_BYPASS_ENV`, where `None` stands for a variable that is not set.
pub fn allow_test_bypass(debug_build: bool, value: Option<&str>) -> (allowed: bool)
    ensures
        allowed == bypass_allowed(
            debug_build,
            match value {
                Some(v) => Some(v@),
                None => None,
            },
        ),
{
    if !debug_build {
        return false;
    }
    match value {
        Some(v) => str_equals(v, "1") || str_equals(v, "true") || str_equals(v, "TRUE"),
        None => false,
    }
}

fn str_equals(a: &str, b: &str) -> (same: bool)
    ensures
        same == (a@ == b@),
{
    let n: usize = a.unicode_len();
    if n != b.unicode_len() {
        return false;
    }
    let mut i: usize = 0;
    while i < n
        invariant
            i <= n,
            n == a@.len(),
            n == b@.len(),
            forall|j: int| 0 <= j < i ==> a@[j] == b@[j],
        decreases n - i,
    {
        if a.get_char(i) != b.get_char(i) {
            return false;
        }
        i += 1;
    }
    assert(a@ =~= b@);
    true
}

impl AoMode {
    /// The mode of a host: without a native facility nothing is available;
    /// with one, the test bypass decides.
    pub fn of_host(native: bool, debug_build: bool, bypass: Option<&str>) -> (mode: AoMode)
        ensures
            mode == if !native {
                AoMode::Unavailable
            } else if bypass_allowed(
                debug_build,
                match bypass {
                    Some(v) => Some(v@),
                    None => None,
                },
            ) {
                AoMode::Bypass
            } else {
                AoMode::Native
            },
    {
        if !native {
            AoMode::Unavailable
        } else if allow_test_bypass(debug_build, bypass) {
            AoMode::Bypass
        } else {
            AoMode::Native
        }
    }

    /// Whether an operation goes to the kernel (`Ok(true)`), is skipped as a
    /// whole (`Ok(false)`), or fails at once because the host has no TCP-AO.
    pub fn gate(self) -> (go: Result<bool, IoFailure>)
        ensures
            match go {
                Ok(native) => self != AoMode::Unavailable && native == (self == AoMode::Native),
                Err(e) => self == AoMode::Unavailable && e@ == unsupported_host_view(),
            },
    {
        match self {
            AoMode::Native => Ok(true),
            AoMode::Bypass => Ok(false),
            AoMode::Unavailable => Err(
                IoFailure::new(
                    IoKind::Unsupported,
                    String::from_str("tcp-ao is only supported on linux"),
                ),
            ),
        }
    }
}

/// The failure of every operation on a host without TCP-AO.
pub open spec fn unsupported_host_view() -> IoFailureView {
    IoFailureView {
        kind: IoKind::Unsupported,
        os_code: None,
        message: "tcp-ao is only supported on linux"@,
    }
}

/// Whether a policy's peer is of the family that a listener is bound to.
pub fn policy_matches_family(peer_ip: IpAddress, listen_ip: IpAddress) -> (same: bool)
    ensures
        same == (peer_ip is V4 <==> listen_ip is V4),
{
    match (peer_ip, listen_ip) {
        (IpAddress::V4(_), IpAddress::V4(_)) => true,
        (IpAddress::V6(_), IpAddress::V6(_)) => true,
        _ => false,
    }
}

/// The kernel's session information for a socket, as far as it is read or
/// set here: whether segments without a valid MAC are refused.
#[derive(Clone, Copy, Debug, PartialEq, Eq, Structural)]
pub struct AoInfo {
    pub ao_required: bool,
}

/// The three calls that are made to the kernel for TCP-AO.
#[derive(Clone, Copy, Debug, PartialEq, Eq, Structural)]
pub enum AoCall {
    AddKey,
    SetInfo,
    GetInfo,
}

impl AoCall {
    /// The name under which a failure of the call is reported.
    pub open spec fn context_text(self) -> Seq<char> {
        match self {
            AoCall::AddKey => "TCP_AO_ADD_KEY"@,
            AoCall::SetInfo => "TCP_AO_INFO"@,
            AoCall::GetInfo => "TCP_AO_INFO getsockopt"@,
        }
    }

    pub fn context(self) -> (name: &'static str)
        ensures
            name@ == self.context_text(),
    {
        match self {
            AoCall::AddKey => "TCP_AO_ADD_KEY",
            AoCall::SetInfo => "TCP_AO_INFO",
            AoCall::GetInfo => "TCP_AO_INFO getsockopt",
        }
    }
}

/// `libc::ENOENT`, the error number for "no such entry". The number is the
/// platform's own, so nothing is claimed of it.
#[verifier::external_body]
fn errno_no_entry() -> (code: i32) {
    libc::ENOENT
}

/// `libc::ENOPROTOOPT`, the error number for a protocol option that the
/// kernel does not know. The number is the platform's own, so nothing is
/// claimed of it.
#[verifier::external_body]
fn errno_no_protocol_option() -> (code: i32) {
    libc::ENOPROTOOPT
}

/// `libc::EOPNOTSUPP`, the error number for an operation that the socket
/// does not support. The number is the platform's own, so nothing is
/// claimed of it.
#[verifier::external_body]
fn errno_not_supported() -> (code: i32) {
    libc::EOPNOTSUPP
}

/// Whether a failure carries one of the two error numbers `codes`.
pub open spec fn has_code(failure: IoFailureView, codes: (i32, i32)) -> bool {
    failure.os_code matches Some(code) && (code == codes.0 || code == codes.1)
}

/// A kernel failure as it is reported: under the name of the call that
/// failed, and as unsupported where the kernel did not know the option.
/// The raw error number is not carried on.
pub open spec fn reported_failure(
    failure: IoFailureView,
    context: Seq<char>,
    option_unknown: bool,
) -> IoFailureView {
    if option_unknown {
        IoFailureView {
            kind: IoKind::Unsupported,
            os_code: None,
            message: context + " failed: kernel does not support tcp-ao ("@ + failure.message
                + ")"@,
        }
    } else {
        IoFailureView {
            kind: failure.kind,
            os_code: None,
            message: context + " failed: "@ + failure.message,
        }
    }
}

/// Reports a kernel failure, given the two error numbers that stand for an
/// option that the kernel does not know.
pub fn report_failure(failure: &IoFailure, context: &str, option_unknown: (i32, i32)) -> (reported:
    IoFailure)
    ensures
        reported@ == reported_failure(failure@, context@, has_code(failure@, option_unknown)),
{
    let unknown: bool = match failure.os_code {
        Some(code) => code == option_unknown.0 || code == option_unknown.1,
        None => false,
    };
    let mut message = String::from_str(context);
    if unknown {
        message.append(" failed: kernel does not support tcp-ao (");
        message.append(failure.message.as_str());
        message.append(")");
        IoFailure::new(IoKind::Unsupported, message)
    } else {
        message.append(" failed: ");
        message.append(failure.message.as_str());
        IoFailure::new(failure.kind, message)
    }
}

/// Reports a kernel failure of a TCP-AO call under the call's name, with
/// the platform's error numbers for an unknown option. A failure without a
/// raw error number keeps its class.
pub fn normalize_ao_error(failure: &IoFailure, context: &str) -> (reported: IoFailure)
    ensures
        reported@ == reported_failure(failure@, context@, true) || reported@ == reported_failure(
            failure@,
            context@,
            false,
        ),
        failure.os_code is None ==> reported@ == reported_failure(failure@, context@, false),
{
    report_failure(failure, context, (errno_no_protocol_option(), errno_not_supported()))
}

/// What the probe makes of the query for session information on a fresh
/// socket, given the error number for "no such entry": an answer, or the
/// lack of a session, shows that TCP-AO is there; any other failure is
/// handed on as it is.
pub open spec fn probe_verdict(query: Result<AoInfo, IoFailureView>, no_entry: i32) -> Result<
    (),
    IoFailureView,
> {
    match query {
        Ok(_) => Ok(()),
        Err(e) => if e.os_code == Some(no_entry) || e.kind == IoKind::NotFound {
            Ok(())
        } else {
            Err(e)
        },
    }
}

/// The kernel's answer to a query for session information, a failure by its view.
pub open spec fn answer_view(query: Result<AoInfo, IoFailure>) -> Result<AoInfo, IoFailureView> {
    match query {
        Ok(info) => Ok(info),
        Err(e) => Err(e@),
    }
}

/// Judges the probe's query, given the error number for "no such entry".
pub fn probe_outcome(query: Result<AoInfo, IoFailure>, no_entry: i32) -> (verdict: Result<
    (),
    IoFailure,
>)
    ensures
        verdict is Ok <==> probe_verdict(answer_view(query), no_entry) is Ok,
        verdict matches Err(left) ==> query == Err::<AoInfo, _>(left),
{
    match query {
        Ok(_) => Ok(()),
        Err(e) => {
            let no_session: bool = match e.os_code {
                Some(code) => code == no_entry,
                None => false,
            };
            if no_session || e.kind == IoKind::NotFound {
                Ok(())
            } else {
                Err(e)
            }
        },
    }
}

/// Judges the query for session information that the probe made on a fresh
/// socket. An answer shows that TCP-AO is there, and so does a failure of
/// class not-found; a failure of another class that carries no raw error
/// number is handed on as it is.
pub fn probe_tcpao_support(query: Result<AoInfo, IoFailure>) -> (verdict: Result<(), IoFailure>)
    ensures
        query is Ok ==> verdict is Ok,
        query matches Err(e) && e.kind == IoKind::NotFound ==> verdict is Ok,
        query matches Err(e) && e.kind != IoKind::NotFound && e.os_code is None ==> verdict is Err,
        verdict matches Err(left) ==> query == Err::<AoInfo, _>(left),
{
    probe_outcome(query, errno_no_entry())
}

/// How the check of an accepted session ended well.
#[derive(Clone, Copy, Debug, PartialEq, Eq, Structural)]
pub enum InboundSession {
    /// The kernel requires TCP-AO on the session.
    Verified,
    /// The kernel has no session information yet; the session is let through.
    InfoUnavailable,
}

/// What is made of the session information of an accepted socket: a
/// session on which TCP-AO is required passes; so does one without session
/// information; anything else fails with permission denied.
pub open spec fn inbound_verdict(query: Result<AoInfo, IoFailureView>) -> Result<
    InboundSession,
    IoFailureView,
> {
    match query {
        Ok(info) => if info.ao_required {
            Ok(InboundSession::Verified)
        } else {
            Err(
                IoFailureView {
                    kind: IoKind::PermissionDenied,
                    os_code: None,
                    message: "tcp-ao not required on inbound session"@,
                },
            )
        },
        Err(e) => if e.kind == IoKind::NotFound {
            Ok(InboundSession::InfoUnavailable)
        } else {
            Err(IoFailureView { kind: IoKind::PermissionDenied, os_code: None, message: e.message })
        },
    }
}

/// Judges the session information of a socket that was just accepted.
pub fn ensure_inbound_session_has_ao(query: Result<AoInfo, IoFailure>) -> (verdict: Result<
    InboundSession,
    IoFailure,
>)
    ensures
        match verdict {
            Ok(session) => inbound_verdict(answer_view(query)) == Ok::<_, IoFailureView>(session),
            Err(failure) => inbound_verdict(answer_view(query)) == Err::<InboundSession, _>(
                failure@,
            ),
        },
{
    match query {
        Ok(info) => {
            if info.ao_required {
                Ok(InboundSession::Verified)
            } else {
                Err(
                    IoFailure::new(
                        IoKind::PermissionDenied,
                        String::from_str("tcp-ao not required on inbound session"),
                    ),
                )
            }
        },
        Err(e) => {
            if e.kind == IoKind::NotFound {
                Ok(InboundSession::InfoUnavailable)
            } else {
                Err(IoFailure::new(IoKind::PermissionDenied, e.message))
            }
        },
    }
}

/// The failure to resolve a policy's key, as the binding reports it:
/// invalid input, with the text of the cause.
pub open spec fn key_failure(cause: ProxyErrorView) -> IoFailureView {
    IoFailureView { kind: IoKind::InvalidInput, os_code: None, message: cause.message() }
}

/// Hands on the key that was resolved for a policy, or reports why there is none.
pub fn policy_key_bytes(resolved: Result<Vec<u8>, ProxyError>) -> (key: Result<Vec<u8>, IoFailure>)
    ensures
        match resolved {
            Ok(bytes) => key == Ok::<_, IoFailure>(bytes),
            Err(cause) => key matches Err(failure) && failure@ == key_failure(cause@),
        },
{
    match resolved {
        Ok(bytes) => Ok(bytes),
        Err(cause) => Err(IoFailure::new(IoKind::InvalidInput, cause.message())),
    }
}

/// What the kernel is told for one socket: the keys to install, in this
/// order, and then the session information to set.
#[derive(Clone, Debug)]
pub struct Arming {
    pub keys: Vec<KeyInstall>,
    pub info: AoInfo,
}

impl Arming {
    /// The records of the keys, in the order in which they are installed.
    pub open spec fn records(&self) -> Seq<KeyInstallView> {
        self.keys@.map_values(|k: KeyInstall| k@)
    }
}

/// Arms a socket that is about to connect to `remote`: the policy's key is
/// installed for the remote peer as the current send key and the next
/// receive key, and TCP-AO is then required on the socket. A key or an
/// algorithm name that the kernel cannot take is reported, and nothing is
/// then to be told to the kernel.
pub fn apply_outbound_policy(policy: &AoPolicyConfig, remote: SocketAddress, key: &[u8]) -> (arming:
    Result<Arming, IoFailure>)
    ensures
        match arming {
            Ok(a) => a.info.ao_required && a.keys.len() == 1 && key_install(
                policy@,
                remote,
                key@,
                true,
            ) == Ok::<_, IoFailureView>(a.keys[0]@),
            Err(e) => key_install(policy@, remote, key@, true) == Err::<KeyInstallView, _>(e@),
        },
{
    match install_key(policy, remote, key, true) {
        Ok(record) => {
            let mut keys: Vec<KeyInstall> = Vec::new();
            keys.push(record);
            Ok(Arming { keys, info: AoInfo { ao_required: true } })
        },
        Err(e) => Err(e),
    }
}

/// A policy together with the key that was resolved for it.
#[derive(Debug)]
pub struct KeyedPolicy<'a> {
    pub policy: &'a AoPolicyConfig,
    pub key: Vec<u8>,
}

impl<'a> View for KeyedPolicy<'a> {
    type V = (PolicyView, Seq<u8>);

    open spec fn view(&self) -> (PolicyView, Seq<u8>) {
        (self.policy@, self.key@)
    }
}

/// The peer for which a listener installs a policy's key: the policy's
/// address, with port 0 where the policy names none.
pub open spec fn listener_peer(policy: PolicyView) -> SocketAddress {
    let port = match policy.peer_port {
        Some(p) => p,
        None => 0u16,
    };
    match policy.peer_ip {
        IpAddress::V4(ip) => SocketAddress::V4 { ip, port },
        IpAddress::V6(ip) => SocketAddress::V6 { ip, port, flowinfo: 0, scope_id: 0 },
    }
}

/// The records for a listener on an address of the family of `listen_ip`:
/// one for each policy of that family, in order, of which the first, and
/// only the first, is made current and next. The first policy whose record
/// cannot be built gives the failure.
pub open spec fn listener_keys(listen_ip: IpAddress, keyed: Seq<(PolicyView, Seq<u8>)>) -> Result<
    Seq<KeyInstallView>,
    IoFailureView,
>
    decreases keyed.len(),
{
    if keyed.len() == 0 {
        Ok(Seq::empty())
    } else {
        match listener_keys(listen_ip, keyed.drop_last()) {
            Err(e) => Err(e),
            Ok(records) => match listener_key(listen_ip, keyed.last(), records.len() == 0) {
                Err(e) => Err(e),
                Ok(None) => Ok(records),
                Ok(Some(record)) => Ok(records.push(record)),
            },
        }
    }
}

/// The record for one policy on a listener: none for a policy of the other
/// address family. The definition is to be revealed where it is needed.
#[verifier::opaque]
pub open spec fn listener_key(listen_ip: IpAddress, keyed: (PolicyView, Seq<u8>), first: bool) -> Result<
    Option<KeyInstallView>,
    IoFailureView,
> {
    if (keyed.0.peer_ip is V4) != (listen_ip is V4) {
        Ok(None)
    } else {
        match key_install(keyed.0, listener_peer(keyed.0), keyed.1, first) {
            Err(e) => Err(e),
            Ok(record) => Ok(Some(record)),
        }
    }
}

fn listener_key_of(listen_ip: IpAddress, keyed: &KeyedPolicy, first: bool) -> (record: Result<
    Option<KeyInstall>,
    IoFailure,
>)
    ensures
        match record {
            Ok(Some(r)) => listener_key(listen_ip, keyed@, first) == Ok::<_, IoFailureView>(
                Some(r@),
            ),
            Ok(None) => listener_key(listen_ip, keyed@, first) == Ok::<_, IoFailureView>(
                None::<KeyInstallView>,
            ),
            Err(e) => listener_key(listen_ip, keyed@, first) == Err::<Option<KeyInstallView>, _>(
                e@,
            ),
        },
{
    reveal(listener_key);
    if !policy_matches_family(keyed.policy.peer_ip, listen_ip) {
        return Ok(None);
    }
    let port: u16 = match keyed.policy.peer_port {
        Some(p) => p,
        None => 0,
    };
    let peer = SocketAddress::new(keyed.policy.peer_ip, port);
    match install_key(keyed.policy, peer, keyed.key.as_slice(), first) {
        Ok(record) => Ok(Some(record)),
        Err(e) => Err(e),
    }
}

pub open spec fn no_listener_key() -> IoFailureView {
    IoFailureView {
        kind: IoKind::InvalidInput,
        os_code: None,
        message: "no AO policies matched listener address family"@,
    }
}

/// What a listener is armed with: its records, which must be one at least,
/// and then the requirement of TCP-AO.
pub open spec fn listener_arming(listen_ip: IpAddress, keyed: Seq<(PolicyView, Seq<u8>)>) -> Result<
    (Seq<KeyInstallView>, AoInfo),
    IoFailureView,
> {
    match listener_keys(listen_ip, keyed) {
        Err(e) => Err(e),
        Ok(records) => if records.len() == 0 {
            Err(no_listener_key())
        } else {
            Ok((records, AoInfo { ao_required: true }))
        },
    }
}

/// The views of policies with their keys, in order.
pub open spec fn keyed_views(keyed: Seq<KeyedPolicy>) -> Seq<(PolicyView, Seq<u8>)> {
    keyed.map_values(|k: KeyedPolicy| k@)
}

/// Arms a listening socket bound to `listen_addr` with the policies of its
/// address family, each with its key. Everything is computed before the
/// kernel is told anything, so a key that cannot be installed is reported
/// while the socket is still untouched.
pub fn configure_listener(listen_addr: SocketAddress, keyed: &[KeyedPolicy]) -> (arming: Result<
    Arming,
    IoFailure,
>)
    ensures
        match arming {
            Ok(a) => listener_arming(listen_addr.ip(), keyed_views(keyed@)) == Ok::<
                _,
                IoFailureView,
            >((a.records(), a.info)),
            Err(e) => listener_arming(listen_addr.ip(), keyed_views(keyed@)) == Err::<
                (Seq<KeyInstallView>, AoInfo),
                _,
            >(e@),
        },
{
    let listen_ip: IpAddress = listen_addr.get_ip();
    let ghost all = keyed_views(keyed@);
    let mut keys: Vec<KeyInstall> = Vec::new();
    let mut at: usize = 0;
    assert(keys@.map_values(|k: KeyInstall| k@) =~= Seq::empty());
    while at < keyed.len()
        invariant
            at <= keyed.len(),
            all == keyed_views(keyed@),
            listen_ip == listen_addr.ip(),
            listener_keys(listen_ip, all.take(at as int)) == Ok::<_, IoFailureView>(
                keys@.map_values(|k: KeyInstall| k@),
            ),
        decreases keyed.len() - at,
    {
        let entry = &keyed[at];
        let ghost before = keys@.map_values(|k: KeyInstall| k@);
        assert(all.take(at + 1).drop_last() =~= all.take(at as int));
        match listener_key_of(listen_ip, entry, keys.len() == 0) {
            Ok(Some(record)) => {
                keys.push(record);
                assert(keys@.map_values(|k: KeyInstall| k@) =~= before.push(record@));
            },
            Ok(None) => {},
            Err(e) => {
                proof {
                    lemma_listener_failure_stays(listen_ip, all, at + 1);
                }
                return Err(e);
            },
        }
        at += 1;
    }
    assert(all.take(at as int) =~= all);
    if keys.len() == 0 {
        return Err(
            IoFailure::new(
                IoKind::InvalidInput,
                String::from_str("no AO policies matched listener address family"),
            ),
        );
    }
    Ok(Arming { keys, info: AoInfo { ao_required: true } })
}

/// Of the keys of a listener exactly the first is current and next, and
/// there are no more keys than policies.
pub proof fn lemma_listener_first_key_current(listen_ip: IpAddress, keyed: Seq<(PolicyView, Seq<u8>)>)
    ensures
        listener_keys(listen_ip, keyed) matches Ok(records) ==> records.len() <= keyed.len()
            && forall|k: int|
            0 <= k < records.len() ==> (#[trigger] records[k]).set_current == (k == 0)
                && records[k].set_rnext == (k == 0),
    decreases keyed.len(),
{
    reveal(listener_key);
    if keyed.len() > 0 {
        lemma_listener_first_key_current(listen_ip, keyed.drop_last());
    }
}

/// A failure among the first `upto` policies is the failure of the whole.
proof fn lemma_listener_failure_stays(
    listen_ip: IpAddress,
    keyed: Seq<(PolicyView, Seq<u8>)>,
    upto: int,
)
    requires
        0 <= upto <= keyed.len(),
        listener_keys(listen_ip, keyed.take(upto)) is Err,
    ensures
        listener_keys(listen_ip, keyed) == listener_keys(listen_ip, keyed.take(upto)),
    decreases keyed.len() - upto,
{
    if upto == keyed.len() {
        assert(keyed.take(upto) =~= keyed);
    } else {
        assert(keyed.take(upto + 1).drop_last() =~= keyed.take(upto));
        lemma_listener_failure_stays(listen_ip, keyed, upto + 1);
    }
}

} // verus!
