//! The configuration record: global settings, the two mode sections and the
//! store of TCP-AO policies, with the rules that make a record valid.

use crate::addr::IpAddress;
use crate::error::{ProxyError, ProxyErrorView};
use crate::text::{append_decimal, decimal_text, has_prefix, strip_prefix};
use std::time::Duration;
use vstd::prelude::*;
use vstd::string::*;

mod validation;

verus! {

/// The duration that `Duration::from_secs` builds from a number of whole seconds.
pub uninterp spec fn duration_of_secs(secs: u64) -> Duration;

/// `core::time::Duration::from_secs`: the result is a function of the number
/// of seconds alone.
pub assume_specification[ Duration::from_secs ](secs: u64) -> (d: Duration)
    ensures
        d == duration_of_secs(secs),
;

/// The side of the link that the proxy serves.
#[derive(Debug, Clone, Copy, PartialEq, Eq, Structural)]
pub enum Mode {
    Initiator,
    Terminator,
}

#[derive(Debug, Clone, Copy, PartialEq, Eq, Structural)]
pub enum LogFormat {
    Text,
    Json,
}

impl Default for LogFormat {
    fn default() -> (format: LogFormat)
        ensures
            format == LogFormat::Text,
    {
        LogFormat::Text
    }
}

#[derive(Debug, Clone)]
pub struct Config {
    pub global: GlobalConfig,
    pub initiator: Option<InitiatorConfig>,
    pub terminator: Option<TerminatorConfig>,
    pub ao_policy: Vec<AoPolicyConfig>,
}

#[derive(Debug, Clone)]
pub struct GlobalConfig {
    pub log_format: LogFormat,
    /// Seconds without traffic after which a connection is closed; 0 disables.
    pub idle_timeout_secs: u64,
    pub tcp_keepalive: bool,
    pub keepalive_time_secs: Option<u64>,
    pub keepalive_intvl_secs: Option<u64>,
    pub keepalive_probes: Option<u32>,
}

#[derive(Debug, Clone)]
pub struct InitiatorConfig {
    pub listen_plain: String,
    pub remote_ao: String,
}

#[derive(Debug, Clone)]
pub struct TerminatorConfig {
    pub listen_ao: String,
    pub forward_plain: String,
}

/// One TCP-AO policy: the peer it applies to and the key to use with it.
#[derive(Debug, Clone)]
pub struct AoPolicyConfig {
    pub name: String,
    pub peer_ip: IpAddress,
    /// The peer's port; `None` stands for any port on `peer_ip`.
    pub peer_port: Option<u16>,
    pub keyid: u8,
    /// Reserved: accepted, and without effect on the keys that are installed.
    pub rnextkeyid: Option<u8>,
    pub mac_alg: String,
    pub key_source: KeySource,
}

/// Where a key comes from, as written in the configuration: `file:PATH` or `env:VAR`.
#[derive(Debug, Clone)]
pub struct KeySource(pub String);

#[derive(Debug, Clone)]
pub enum KeySourceKind {
    File(String),
    Env(String),
}

pub enum KeySourceKindView {
    File(Seq<char>),
    Env(Seq<char>),
}

impl View for KeySourceKind {
    type V = KeySourceKindView;

    open spec fn view(&self) -> KeySourceKindView {
        match self {
            KeySourceKind::File(path) => KeySourceKindView::File(path@),
            KeySourceKind::Env(name) => KeySourceKindView::Env(name@),
        }
    }
}

pub struct PolicyView {
    pub name: Seq<char>,
    pub peer_ip: IpAddress,
    pub peer_port: Option<u16>,
    pub keyid: u8,
    pub rnextkeyid: Option<u8>,
    pub mac_alg: Seq<char>,
    pub key_source: Seq<char>,
}

impl View for AoPolicyConfig {
    type V = PolicyView;

    open spec fn view(&self) -> PolicyView {
        PolicyView {
            name: self.name@,
            peer_ip: self.peer_ip,
            peer_port: self.peer_port,
            keyid: self.keyid,
            rnextkeyid: self.rnextkeyid,
            mac_alg: self.mac_alg@,
            key_source: self.key_source.0@,
        }
    }
}

/// The policies of a store, each by its view, in declaration order.
pub open spec fn policy_views(policies: Seq<AoPolicyConfig>) -> Seq<PolicyView> {
    policies.map_values(|p: AoPolicyConfig| p@)
}

/// The variant that a key source names, or the error for one that names none.
pub open spec fn key_source_kind(source: Seq<char>) -> Result<KeySourceKindView, ProxyErrorView> {
    if has_prefix(source, "file:"@) {
        let path = source.subrange("file:"@.len() as int, source.len() as int);
        if path.len() == 0 {
            Err(ProxyErrorView::Config("key_source file path must not be empty"@))
        } else {
            Ok(KeySourceKindView::File(path))
        }
    } else if has_prefix(source, "env:"@) {
        let name = source.subrange("env:"@.len() as int, source.len() as int);
        if name.len() == 0 {
            Err(ProxyErrorView::Config("key_source env variable must not be empty"@))
        } else {
            Ok(KeySourceKindView::Env(name))
        }
    } else {
        Err(
            ProxyErrorView::Config(
                "unsupported key_source '"@ + source + "'; expected file:PATH or env:VAR"@,
            ),
        )
    }
}

impl KeySource {
    /// Resolves the descriptor to its variant. Nothing is read: the key
    /// itself is fetched only when a socket is armed.
    pub fn kind(&self) -> (kind: Result<KeySourceKind, ProxyError>)
        ensures
            match kind {
                Ok(k) => key_source_kind(self.0@) == Ok::<_, ProxyErrorView>(k@),
                Err(e) => key_source_kind(self.0@) == Err::<KeySourceKindView, _>(e@),
            },
    {
        let source: &str = self.0.as_str();
        if let Some(path) = strip_prefix(source, "file:") {
            if path.unicode_len() == 0 {
                return Err(
                    ProxyError::Config(String::from_str("key_source file path must not be empty")),
                );
            }
            return Ok(KeySourceKind::File(String::from_str(path)));
        }
        if let Some(name) = strip_prefix(source, "env:") {
            if name.unicode_len() == 0 {
                return Err(
                    ProxyError::Config(
                        String::from_str("key_source env variable must not be empty"),
                    ),
                );
            }
            return Ok(KeySourceKind::Env(String::from_str(name)));
        }
        let mut message = String::from_str("unsupported key_source '");
        message.append(source);
        message.append("'; expected file:PATH or env:VAR");
        Err(ProxyError::Config(message))
    }
}

/// The key that a file source yields from the file's content.
pub open spec fn file_key(content: Seq<u8>) -> Result<Seq<u8>, ProxyErrorView> {
    if content.len() == 0 {
        Err(ProxyErrorView::Config("key file is empty"@))
    } else {
        Ok(content)
    }
}

/// The key that an environment source yields from the value of the
/// variable `name`, where `None` stands for a variable that is not set.
pub open spec fn env_key(name: Seq<char>, value: Option<Seq<char>>) -> Result<
    Seq<u8>,
    ProxyErrorView,
> {
    match value {
        None => Err(ProxyErrorView::Config("required env key '"@ + name + "' not found"@)),
        Some(v) => if v.len() == 0 {
            Err(ProxyErrorView::Config("env key value is empty"@))
        } else {
            Ok(vstd::utf8::encode_utf8(v))
        },
    }
}

/// A key is refused only where there is none: the errors are those of a file
/// without content and of a variable without value, so none of them can
/// carry a byte of a key.
pub proof fn lemma_key_errors_hold_no_key(
    content: Seq<u8>,
    name: Seq<char>,
    value: Option<Seq<char>>,
)
    ensures
        file_key(content) is Err <==> content.len() == 0,
        env_key(name, value) is Err <==> (value matches Some(v) ==> v.len() == 0),
{
}

impl KeySource {
    /// The key of a `file:` source whose file holds `content`: every byte as
    /// read, a trailing newline included. An empty file is refused.
    pub fn key_from_file(content: Vec<u8>) -> (key: Result<Vec<u8>, ProxyError>)
        ensures
            match key {
                Ok(k) => file_key(content@) == Ok::<_, ProxyErrorView>(k@),
                Err(e) => file_key(content@) == Err::<Seq<u8>, _>(e@),
            },
    {
        if content.len() == 0 {
            return Err(ProxyError::Config(String::from_str("key file is empty")));
        }
        Ok(content)
    }

    /// The key of an `env:` source whose variable `name` holds `value`. A
    /// variable that is not set, or is empty, is refused; the error names the
    /// variable and never its value.
    pub fn key_from_env(name: &str, value: Option<String>) -> (key: Result<Vec<u8>, ProxyError>)
        ensures
            match key {
                Ok(k) => value is Some && env_key(name@, Some(value->0@)) == Ok::<
                    _,
                    ProxyErrorView,
                >(k@),
                Err(e) => env_key(
                    name@,
                    match value {
                        Some(v) => Some(v@),
                        None => None,
                    },
                ) == Err::<Seq<u8>, _>(e@),
            },
    {
        match value {
            None => {
                let mut message = String::from_str("required env key '");
                message.append(name);
                message.append("' not found");
                Err(ProxyError::Config(message))
            },
            Some(v) => {
                if v.as_str().unicode_len() == 0 {
                    return Err(ProxyError::Config(String::from_str("env key value is empty")));
                }
                Ok(v.as_str().as_bytes_vec())
            },
        }
    }
}

/// Whether two policies claim the same peer: the same address and the same
/// port, two absent ports being the same.
pub open spec fn same_peer(a: PolicyView, b: PolicyView) -> bool {
    a.peer_ip == b.peer_ip && a.peer_port == b.peer_port
}

/// No two policies of the store have the same name.
pub open spec fn names_unique(store: Seq<PolicyView>) -> bool {
    forall|i: int, j: int| 0 <= i < j < store.len() ==> store[i].name != store[j].name
}

/// No two policies of the store claim the same peer.
pub open spec fn peer_tuples_unique(store: Seq<PolicyView>) -> bool {
    forall|i: int, j: int| 0 <= i < j < store.len() ==> !same_peer(store[i], store[j])
}

/// Every policy's key source names a variant.
pub open spec fn key_sources_recognized(store: Seq<PolicyView>) -> bool {
    forall|i: int| 0 <= i < store.len() ==> (#[trigger] key_source_kind(store[i].key_source)) is Ok
}

/// The policy at `i` has the name of an earlier one.
pub open spec fn repeats_name(store: Seq<PolicyView>, i: int) -> bool {
    exists|j: int| 0 <= j < i && store[j].name == store[i].name
}

/// The policy at `i` claims the peer of an earlier one.
pub open spec fn repeats_peer(store: Seq<PolicyView>, i: int) -> bool {
    exists|j: int| 0 <= j < i && same_peer(store[j], store[i])
}

/// The policy at `i` is the first whose key source names no variant.
pub open spec fn first_unrecognized(store: Seq<PolicyView>, i: int) -> bool {
    &&& 0 <= i < store.len()
    &&& key_source_kind(store[i].key_source) is Err
    &&& forall|j: int| 0 <= j < i ==> (#[trigger] key_source_kind(store[j].key_source)) is Ok
}

/// The policy at `i` is the first that repeats a name or a peer.
pub open spec fn first_repetition(store: Seq<PolicyView>, i: int) -> bool {
    &&& 0 <= i < store.len()
    &&& repeats_name(store, i) || repeats_peer(store, i)
    &&& forall|j: int| 0 <= j < i ==> !#[trigger] repeats_name(store, j)
    &&& forall|j: int| 0 <= j < i ==> !#[trigger] repeats_peer(store, j)
}

pub open spec fn mode_name(mode: Mode) -> Seq<char> {
    match mode {
        Mode::Initiator => "initiator"@,
        Mode::Terminator => "terminator"@,
    }
}

pub open spec fn duplicate_name_error(name: Seq<char>) -> ProxyErrorView {
    ProxyErrorView::Config("duplicate ao_policy name '"@ + name + "'"@)
}

/// The error for a policy whose peer is claimed already: it gives the peer's
/// address and port, with `*` for an absent port.
pub open spec fn duplicate_peer_error(policy: PolicyView) -> ProxyErrorView {
    ProxyErrorView::Config(
        "duplicate ao_policy peer tuple "@ + policy.peer_ip.text() + ":"@ + match policy.peer_port {
            Some(port) => decimal_text(port as nat),
            None => "*"@,
        },
    )
}

pub open spec fn log_format_name(format: LogFormat) -> Seq<char> {
    match format {
        LogFormat::Text => "Text"@,
        LogFormat::Json => "Json"@,
    }
}

impl Config {
    /// The policy store, each policy by its view, in declaration order.
    pub open spec fn policies(&self) -> Seq<PolicyView> {
        policy_views(self.ao_policy@)
    }

    pub open spec fn has_section(&self, mode: Mode) -> bool {
        match mode {
            Mode::Initiator => self.initiator is Some,
            Mode::Terminator => self.terminator is Some,
        }
    }

    /// What makes a configuration fit to run in `mode`: the mode's section
    /// is present, there is at least one policy, every key source names a
    /// variant, and neither a name nor a peer occurs twice.
    pub open spec fn valid_for(&self, mode: Mode) -> bool {
        &&& self.has_section(mode)
        &&& self.policies().len() > 0
        &&& key_sources_recognized(self.policies())
        &&& names_unique(self.policies())
        &&& peer_tuples_unique(self.policies())
    }

    /// Whether `error` is the one that validation reports for this
    /// configuration. The rules are tried in the order of `valid_for`, and
    /// within a rule the first offending policy is reported; where a policy
    /// repeats both a name and a peer, the name is reported.
    pub open spec fn validation_error(&self, mode: Mode, error: ProxyErrorView) -> bool {
        let store = self.policies();
        if !self.has_section(mode) {
            error == ProxyErrorView::MissingModeConfig(mode_name(mode))
        } else if store.len() == 0 {
            error == ProxyErrorView::Config("at least one [[ao_policy]] entry is required"@)
        } else if !key_sources_recognized(store) {
            exists|i: int|
                first_unrecognized(store, i) && key_source_kind(store[i].key_source) == Err::<
                    KeySourceKindView,
                    _,
                >(error)
        } else {
            exists|i: int|
                first_repetition(store, i) && error == if repeats_name(store, i) {
                    duplicate_name_error(store[i].name)
                } else {
                    duplicate_peer_error(store[i])
                }
        }
    }

    /// A summary that is safe to log: the global settings and the number of
    /// policies, and neither a policy's name nor anything of its key.
    pub open spec fn summary_text(&self) -> Seq<char> {
        "log_format="@ + log_format_name(self.global.log_format) + ", idle_timeout_secs="@
            + decimal_text(self.global.idle_timeout_secs as nat) + ", tcp_keepalive="@ + (
        if self.global.tcp_keepalive {
            "true"@
        } else {
            "false"@
        }) + ", policies="@ + decimal_text(self.ao_policy@.len())
    }

    /// The summary tells the policies' number and nothing else of them.
    pub proof fn lemma_summary_hides_policies(&self, other: &Config)
        requires
            self.global == other.global,
            self.ao_policy@.len() == other.ao_policy@.len(),
        ensures
            self.summary_text() == other.summary_text(),
    {
    }

    pub fn redacted_summary(&self) -> (summary: String)
        ensures
            summary@ == self.summary_text(),
    {
        let mut summary = String::from_str("log_format=");
        match self.global.log_format {
            LogFormat::Text => summary.append("Text"),
            LogFormat::Json => summary.append("Json"),
        }
        summary.append(", idle_timeout_secs=");
        append_decimal(&mut summary, self.global.idle_timeout_secs);
        summary.append(", tcp_keepalive=");
        if self.global.tcp_keepalive {
            summary.append("true");
        } else {
            summary.append("false");
        }
        summary.append(", policies=");
        append_decimal(&mut summary, self.ao_policy.len() as u64);
        summary
    }
}

/// Idle timeout, in seconds, of a configuration that does not set one.
pub fn default_idle_timeout_secs() -> (secs: u64)
    ensures
        secs == 120,
{
    120
}

impl Default for GlobalConfig {
    fn default() -> (global: GlobalConfig)
        ensures
            global.log_format == LogFormat::Text,
            global.idle_timeout_secs == 120,
            !global.tcp_keepalive,
            global.keepalive_time_secs is None,
            global.keepalive_intvl_secs is None,
            global.keepalive_probes is None,
    {
        GlobalConfig {
            log_format: LogFormat::Text,
            idle_timeout_secs: default_idle_timeout_secs(),
            tcp_keepalive: false,
            keepalive_time_secs: None,
            keepalive_intvl_secs: None,
            keepalive_probes: None,
        }
    }
}

impl GlobalConfig {
    /// The idle window as a duration; zero seconds means that no timer is armed.
    pub open spec fn spec_idle_timeout(&self) -> Option<Duration> {
        if self.idle_timeout_secs == 0 {
            None
        } else {
            Some(duration_of_secs(self.idle_timeout_secs))
        }
    }

    pub fn idle_timeout(&self) -> (timeout: Option<Duration>)
        ensures
            timeout == self.spec_idle_timeout(),
    {
        if self.idle_timeout_secs == 0 {
            None
        } else {
            Some(Duration::from_secs(self.idle_timeout_secs))
        }
    }
}

} // verus!
