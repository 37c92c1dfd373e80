//! Service configuration from its settings.

use vstd::prelude::*;

use super::opt_text;
use crate::text::{decimal, lemma_parse_reads_decimal, parse_unsigned, parsed_unsigned, push_str};

verus! {

/// Settings of the HTTP service.
#[derive(Debug, Clone)]
pub struct AppConfig {
    pub port: u16,
    pub max_traps: usize,
    pub default_traps: usize,
    pub request_timeout_secs: u64,
    pub log_level: String,
}

/// A numeric setting: its value when it parses as an unsigned integer no
/// greater than `max`, else `default`.
pub open spec fn setting_value(setting: Option<Seq<char>>, max: nat, default: nat) -> nat {
    match setting {
        Some(t) => match parsed_unsigned(t, max) {
            Some(v) => v,
            None => default,
        },
        None => default,
    }
}

/// A numeric setting takes the value its text denotes, when that is within
/// bounds, and its default when it is missing, empty or out of bounds.
pub proof fn lemma_setting_value(n: nat, max: nat, default: nat)
    ensures
        n <= max ==> setting_value(Some(decimal(n)), max, default) == n,
        n > max ==> setting_value(Some(decimal(n)), max, default) == default,
        setting_value(None, max, default) == default,
        setting_value(Some(Seq::empty()), max, default) == default,
{
    lemma_parse_reads_decimal(n, max);
}

/// The log filter used when none is set.
pub open spec fn default_log_level() -> Seq<char> {
    "zevq_api=info,zevq_core=info"@
}

fn setting_or(setting: Option<&str>, max: u64, default: u64) -> (v: u64)
    requires
        default <= max,
    ensures
        v == setting_value(opt_text(setting), max as nat, default as nat),
        v <= max,
{
    match setting {
        Some(t) => match parse_unsigned(t, max) {
            Some(v) => v,
            None => default,
        },
        None => default,
    }
}

impl AppConfig {
    /// The configuration from the raw settings (as read from `PORT`, `MAX_TRAPS`,
    /// `DEFAULT_TRAPS`, `REQUEST_TIMEOUT` and `RUST_LOG`): a numeric setting that
    /// is missing or does not parse takes its default (8080, 10000, 50, 30).
    pub fn from_settings(
        port: Option<&str>,
        max_traps: Option<&str>,
        default_traps: Option<&str>,
        request_timeout: Option<&str>,
        log_level: Option<&str>,
    ) -> (c: AppConfig)
        ensures
            c.port == setting_value(opt_text(port), u16::MAX as nat, 8080),
            c.max_traps == setting_value(opt_text(max_traps), usize::MAX as nat, 10_000),
            c.default_traps == setting_value(opt_text(default_traps), usize::MAX as nat, 50),
            c.request_timeout_secs == setting_value(opt_text(request_timeout), u64::MAX as nat, 30),
            c.log_level@ == match log_level {
                Some(l) => l@,
                None => default_log_level(),
            },
    {
        let port_v: u16 = setting_or(port, 0xffff, 8080) as u16;
        let max_v: usize = setting_or(max_traps, usize::MAX as u64, 10_000) as usize;
        let default_v: usize = setting_or(default_traps, usize::MAX as u64, 50) as usize;
        let timeout_v: u64 = setting_or(request_timeout, u64::MAX, 30);
        let mut level = String::new();
        match log_level {
            Some(l) => push_str(&mut level, l),
            None => push_str(&mut level, "zevq_api=info,zevq_core=info"),
        }
        assert(level@ =~= match log_level {
            Some(l) => l@,
            None => default_log_level(),
        });
        AppConfig {
            port: port_v,
            max_traps: max_v,
            default_traps: default_v,
            request_timeout_secs: timeout_v,
            log_level: level,
        }
    }
}

} // verus!
