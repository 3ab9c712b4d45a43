//! Failures of the proxy, by kind, and their diagnostic text.

use vstd::prelude::*;
use vstd::string::*;

verus! {

/// The classes of operating-system failure that the proxy tells apart.
#[derive(Clone, Copy, Debug, PartialEq, Eq, Structural)]
pub enum IoKind {
    NotFound,
    PermissionDenied,
    InvalidInput,
    Unsupported,
    Other,
}

/// One I/O failure: its class, the raw error number where the operating
/// system gave one, and its text.
#[derive(Clone, Debug)]
pub struct IoFailure {
    pub kind: IoKind,
    pub os_code: Option<i32>,
    pub message: String,
}

pub struct IoFailureView {
    pub kind: IoKind,
    pub os_code: Option<i32>,
    pub message: Seq<char>,
}

impl View for IoFailure {
    type V = IoFailureView;

    open spec fn view(&self) -> IoFailureView {
        IoFailureView { kind: self.kind, os_code: self.os_code, message: self.message@ }
    }
}

impl IoFailure {
    /// A failure of class `kind` raised by the proxy itself, with `message` as its text.
    pub fn new(kind: IoKind, message: String) -> (failure: IoFailure)
        ensures
            failure@ == (IoFailureView { kind, os_code: None, message: message@ }),
    {
        IoFailure { kind, os_code: None, message }
    }
}

#[derive(Debug)]
pub enum ProxyError {
    /// An I/O failure that no other kind covers.
    Io(IoFailure),
    /// The configuration file is not well-formed; holds the parser's text.
    Toml(String),
    /// A listen, forward or peer address is not a socket address.
    AddrParse(String),
    /// The configuration is malformed or inconsistent.
    Config(String),
    /// The section of the requested mode is absent; holds the mode's name.
    MissingModeConfig(&'static str),
    /// No policy applies to the peer; holds the peer's address.
    NoPolicyForPeer(String),
    /// A failure of the host's TCP-AO binding, with the operation it came from.
    TcpAo(String),
}

pub enum ProxyErrorView {
    Io(IoFailureView),
    Toml(Seq<char>),
    AddrParse(Seq<char>),
    Config(Seq<char>),
    MissingModeConfig(Seq<char>),
    NoPolicyForPeer(Seq<char>),
    TcpAo(Seq<char>),
}

impl View for ProxyError {
    type V = ProxyErrorView;

    open spec fn view(&self) -> ProxyErrorView {
        match self {
            ProxyError::Io(e) => ProxyErrorView::Io(e@),
            ProxyError::Toml(t) => ProxyErrorView::Toml(t@),
            ProxyError::AddrParse(t) => ProxyErrorView::AddrParse(t@),
            ProxyError::Config(t) => ProxyErrorView::Config(t@),
            ProxyError::MissingModeConfig(t) => ProxyErrorView::MissingModeConfig(t@),
            ProxyError::NoPolicyForPeer(t) => ProxyErrorView::NoPolicyForPeer(t@),
            ProxyError::TcpAo(t) => ProxyErrorView::TcpAo(t@),
        }
    }
}

impl ProxyErrorView {
    /// The one-line diagnostic of the error: its kind, then its detail.
    pub open spec fn message(self) -> Seq<char> {
        match self {
            ProxyErrorView::Io(e) => "io error: "@ + e.message,
            ProxyErrorView::Toml(t) => "toml parse error: "@ + t,
            ProxyErrorView::AddrParse(t) => "address parse error: "@ + t,
            ProxyErrorView::Config(t) => "invalid config: "@ + t,
            ProxyErrorView::MissingModeConfig(t) => "missing mode config section: "@ + t,
            ProxyErrorView::NoPolicyForPeer(t) => "no AO policy matched peer "@ + t,
            ProxyErrorView::TcpAo(t) => "tcp-ao unsupported or not configured: "@ + t,
        }
    }
}

impl ProxyError {
    /// The one-line diagnostic of the error.
    pub fn message(&self) -> (text: String)
        ensures
            text@ == self@.message(),
    {
        match self {
            ProxyError::Io(e) => String::from_str("io error: ").concat(e.message.as_str()),
            ProxyError::Toml(t) => String::from_str("toml parse error: ").concat(t.as_str()),
            ProxyError::AddrParse(t) => String::from_str("address parse error: ").concat(
                t.as_str(),
            ),
            ProxyError::Config(t) => String::from_str("invalid config: ").concat(t.as_str()),
            ProxyError::MissingModeConfig(t) => String::from_str(
                "missing mode config section: ",
            ).concat(t),
            ProxyError::NoPolicyForPeer(t) => String::from_str("no AO policy matched peer ").concat(
                t.as_str(),
            ),
            ProxyError::TcpAo(t) => String::from_str(
                "tcp-ao unsupported or not configured: ",
            ).concat(t.as_str()),
        }
    }
}

} // verus!
