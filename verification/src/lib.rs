//! TCP-AO sidecar proxy core: policy store and selection, key install
//! records for the host kernel, and the connection forwarder's decisions.

pub mod addr;
pub mod config;
pub mod conn;
pub mod error;
pub mod forward;
pub mod metrics;
pub mod mode_initiator;
pub mod mode_terminator;
pub mod sockopt;
pub mod tcpao;
pub mod text;
