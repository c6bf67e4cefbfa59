//! The configuration of one scan.

use crate::port_set::PortSelector;
use vstd::prelude::*;
use vstd::string::*;

verus! {

/// The concurrency used where none is asked for, or the one asked for is unusable.
pub const DEFAULT_CONCURRENCY: usize = 1002;

/// The per-probe timeout, in seconds, used where none is asked for.
pub const DEFAULT_TIMEOUT_SECS: u64 = 3;

/// What a scan is asked to do. It does not change once it is built.
pub struct ScanConfig {
    target: String,
    concurrency: usize,
    timeout_secs: u64,
    port_selector: PortSelector,
}

/// The mathematical content of a [`ScanConfig`].
pub struct ScanConfigView {
    /// The host name or literal address to scan.
    pub target: Seq<char>,
    /// How many probes may be in flight at once.
    pub concurrency: nat,
    /// The deadline of each probe, in seconds.
    pub timeout_secs: u64,
    /// Which ports are probed.
    pub port_selector: PortSelector,
}

impl View for ScanConfig {
    type V = ScanConfigView;

    closed spec fn view(&self) -> ScanConfigView {
        ScanConfigView {
            target: self.target@,
            concurrency: self.concurrency as nat,
            timeout_secs: self.timeout_secs,
            port_selector: self.port_selector,
        }
    }
}

/// The concurrency that a scan runs with when the command line asks for
/// `requested`: the number itself where it is a positive one, the default
/// where it is missing, unreadable or zero.
pub open spec fn effective_concurrency(requested: Option<usize>) -> nat {
    match requested {
        Some(n) => if n >= 1 {
            n as nat
        } else {
            DEFAULT_CONCURRENCY as nat
        },
        None => DEFAULT_CONCURRENCY as nat,
    }
}

/// The timeout that a scan runs with when the command line asks for
/// `requested`: the number itself, or the default where it is missing or
/// unreadable.
pub open spec fn effective_timeout(requested: Option<u64>) -> u64 {
    match requested {
        Some(secs) => secs,
        None => DEFAULT_TIMEOUT_SECS,
    }
}

impl ScanConfig {
    /// A configuration is usable when it allows at least one probe in flight.
    pub open spec fn wf(&self) -> bool {
        self@.concurrency >= 1
    }

    /// Builds a configuration, or refuses a concurrency of zero.
    pub fn new(
        target: String,
        concurrency: usize,
        timeout_secs: u64,
        port_selector: PortSelector,
    ) -> (config: Option<ScanConfig>)
        ensures
            match config {
                Some(built) => concurrency >= 1 && built.wf() && built@ == (ScanConfigView {
                    target: target@,
                    concurrency: concurrency as nat,
                    timeout_secs,
                    port_selector,
                }),
                None => concurrency == 0,
            },
    {
        if concurrency == 0 {
            None
        } else {
            Some(ScanConfig { target, concurrency, timeout_secs, port_selector })
        }
    }

    /// Builds the configuration that the command line asks for. A number that
    /// was not given, or could not be read, arrives as `None` and falls back
    /// to its default; so does a concurrency of zero.
    pub fn from_flags(
        target: String,
        concurrency: Option<usize>,
        timeout_secs: Option<u64>,
        full: bool,
    ) -> (config: ScanConfig)
        ensures
            config.wf(),
            config@ == (ScanConfigView {
                target: target@,
                concurrency: effective_concurrency(concurrency),
                timeout_secs: effective_timeout(timeout_secs),
                port_selector: if full {
                    PortSelector::Full
                } else {
                    PortSelector::Common
                },
            }),
    {
        let concurrency = match concurrency {
            Some(n) => if n >= 1 {
                n
            } else {
                DEFAULT_CONCURRENCY
            },
            None => DEFAULT_CONCURRENCY,
        };
        let timeout_secs = match timeout_secs {
            Some(secs) => secs,
            None => DEFAULT_TIMEOUT_SECS,
        };
        ScanConfig {
            target,
            concurrency,
            timeout_secs,
            port_selector: PortSelector::from_full_flag(full),
        }
    }

    /// The host name or literal address to scan.
    pub fn target(&self) -> (target: &str)
        ensures
            target@ == self@.target,
    {
        self.target.as_str()
    }

    /// How many probes may be in flight at once.
    pub fn concurrency(&self) -> (concurrency: usize)
        ensures
            concurrency == self@.concurrency,
    {
        self.concurrency
    }

    /// The deadline of each probe, in seconds.
    pub fn timeout_secs(&self) -> (timeout_secs: u64)
        ensures
            timeout_secs == self@.timeout_secs,
    {
        self.timeout_secs
    }

    /// Which ports are probed.
    pub fn port_selector(&self) -> (port_selector: PortSelector)
        ensures
            port_selector == self@.port_selector,
    {
        self.port_selector
    }
}

} // verus!
