//! Socket options that follow from the global settings.

use crate::config::GlobalConfig;
use vstd::prelude::*;

verus! {

/// One keepalive option with the value to set.
#[derive(Clone, Copy, Debug, PartialEq, Eq, Structural)]
pub enum SocketOption {
    /// Whether keepalive probes are sent on the socket.
    KeepAlive(i32),
    /// Seconds of silence before the first probe.
    KeepIdle(i32),
    /// Seconds between probes.
    KeepInterval(i32),
    /// Probes without an answer after which the connection is dropped.
    KeepCount(i32),
}

/// A setting as the option's value: its low 32 bits.
pub open spec fn option_value(setting: u64) -> i32 {
    setting as i32
}

/// The keepalive options of a socket, in the order in which they are set:
/// none where keepalive is off; else the switch, then each tunable that is
/// configured.
pub open spec fn keepalive_plan(global: GlobalConfig) -> Seq<SocketOption> {
    if !global.tcp_keepalive {
        Seq::empty()
    } else {
        seq![SocketOption::KeepAlive(1)] + match global.keepalive_time_secs {
            Some(v) => seq![SocketOption::KeepIdle(option_value(v))],
            None => Seq::empty(),
        } + match global.keepalive_intvl_secs {
            Some(v) => seq![SocketOption::KeepInterval(option_value(v))],
            None => Seq::empty(),
        } + match global.keepalive_probes {
            Some(v) => seq![SocketOption::KeepCount(option_value(v as u64))],
            None => Seq::empty(),
        }
    }
}

/// The keepalive options to set on each socket of a connection. They are
/// set one after the other, and the first that fails ends the connection.
pub fn keepalive_options(global: &GlobalConfig) -> (options: Vec<SocketOption>)
    ensures
        options@ == keepalive_plan(*global),
{
    let mut options: Vec<SocketOption> = Vec::new();
    if !global.tcp_keepalive {
        return options;
    }
    options.push(SocketOption::KeepAlive(1));
    if let Some(v) = global.keepalive_time_secs {
        options.push(SocketOption::KeepIdle(#[verifier::truncate] (v as i32)));
    }
    if let Some(v) = global.keepalive_intvl_secs {
        options.push(SocketOption::KeepInterval(#[verifier::truncate] (v as i32)));
    }
    if let Some(v) = global.keepalive_probes {
        options.push(SocketOption::KeepCount(#[verifier::truncate] (v as u64 as i32)));
    }
    options
}

} // verus!
