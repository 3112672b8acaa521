//! Runtime configuration, from the values of the environment variables.
use vstd::prelude::*;
use vstd::string::StringExecFns;

use crate::text::{parse_u64, parsed_u64};

verus! {

/// Runtime configuration.
pub struct Config {
    /// Address to bind: `127.0.0.1:$GH_INBOX_PORT`, or an ephemeral port.
    pub bind_addr: String,
    /// Background sync cadence in seconds: `$GH_INBOX_SYNC_INTERVAL`, default 30.
    pub sync_interval_secs: u64,
}

/// The sync interval: the variable's value when it is a valid `u64`, else 30.
pub open spec fn interval_secs(interval: Option<Seq<char>>) -> u64 {
    match interval {
        Some(v) => match parsed_u64(v) {
            Some(n) => n,
            None => 30,
        },
        None => 30,
    }
}

impl Config {
    /// The configuration for the values of `GH_INBOX_PORT` and
    /// `GH_INBOX_SYNC_INTERVAL` (None when unset).
    pub fn from_values(port: Option<&str>, interval: Option<&str>) -> (r: Config)
        ensures
            r.bind_addr@ == match port {
                Some(p) => "127.0.0.1:"@ + p@,
                None => "127.0.0.1:0"@,
            },
            r.sync_interval_secs == interval_secs(
                match interval {
                    Some(v) => Some(v@),
                    None => None,
                },
            ),
    {
        let bind_addr = match port {
            Some(p) => String::from_str("127.0.0.1:").concat(p),
            None => String::from_str("127.0.0.1:0"),
        };
        let sync_interval_secs = match interval {
            Some(v) => match parse_u64(v) {
                Some(n) => n,
                None => 30,
            },
            None => 30,
        };
        Config { bind_addr, sync_interval_secs }
    }
}

} // verus!
