//! The scan engine: a sliding window of probes over the port set.
//!
//! The engine decides and the caller acts. [`ScanSession::next_action`] says
//! what to do next: start a probe, wait for one to end, or stop. The caller
//! reports each probe that has ended with [`ScanSession::complete`], which
//! hands back the result to pass on. The session never has more probes in
//! flight than the configured concurrency allows, starts a probe whenever a
//! slot is free, and reports the end only when every port has a result.

use crate::config::ScanConfig;
use crate::model::{
    lemma_deliver_keeps_wf, lemma_initial_is_wf, lemma_start_keeps_wf, ScanAction, ScanEvent,
    SessionView,
};
use crate::port_set::{get_ports, PortSet};
use crate::probe::{result_of, ConnectAttempt, PortResult, ProbeRequest};
use crate::resolve::{resolution_of, resolve, IpAddress, ResolutionError, ResolvedTarget};
use vstd::prelude::*;

verus! {

/// Taking the entry at `index` out of a duplicate-free sequence, by moving the
/// last entry into its place, takes just that entry out of the set of entries.
proof fn lemma_swap_remove_set(entries: Seq<u16>, index: int)
    requires
        entries.no_duplicates(),
        0 <= index < entries.len(),
    ensures
        entries.update(index, entries.last()).drop_last().no_duplicates(),
        entries.update(index, entries.last()).drop_last().to_set() == entries.to_set().remove(
            entries[index],
        ),
{
    let rest = entries.update(index, entries.last()).drop_last();
    let last = entries.len() - 1;
    assert forall|i: int, j: int| 0 <= i < rest.len() && 0 <= j < rest.len() && i != j implies rest[i]
        != rest[j] by {
        let from_i = if i == index { last } else { i };
        let from_j = if j == index { last } else { j };
        assert(rest[i] == entries[from_i] && rest[j] == entries[from_j]);
    }
    assert forall|port: u16|
        rest.to_set().contains(port) <==> entries.to_set().remove(entries[index]).contains(
            port,
        ) by {
        if rest.contains(port) {
            let i = choose|i: int| 0 <= i < rest.len() && rest[i] == port;
            let from_i = if i == index { last } else { i };
            assert(entries[from_i] == port);
        }
        if entries.contains(port) && port != entries[index] {
            let i = choose|i: int| 0 <= i < entries.len() && entries[i] == port;
            if i == last {
                assert(rest[index] == port);
            } else {
                assert(rest[i] == port);
            }
        }
    }
    assert(rest.to_set() =~= entries.to_set().remove(entries[index]));
}

/// Where `port` stands in `entries`, if it stands there.
fn position_of(entries: &Vec<u16>, port: u16) -> (position: Option<usize>)
    ensures
        match position {
            Some(index) => index < entries.len() && entries[index as int] == port,
            None => !entries@.contains(port),
        },
{
    let mut index: usize = 0;
    while index < entries.len()
        invariant
            index <= entries.len(),
            forall|i: int| 0 <= i < index ==> entries[i] != port,
        decreases entries.len() - index,
    {
        if entries[index] == port {
            return Some(index);
        }
        index = index + 1;
    }
    None
}

/// A scan in progress: the ports still to start, the probes in flight, and the
/// results handed out so far.
pub struct ScanSession {
    address: IpAddress,
    timeout_secs: u64,
    limit: usize,
    ports: PortSet,
    in_flight: Vec<u16>,
    delivered: Vec<PortResult>,
}

impl View for ScanSession {
    type V = SessionView;

    closed spec fn view(&self) -> SessionView {
        SessionView {
            address: self.address,
            timeout_secs: self.timeout_secs,
            limit: self.limit as nat,
            selector: self.ports.selector(),
            started: self.ports.produced(),
            in_flight: self.in_flight@.to_set(),
            delivered: self.delivered@,
        }
    }
}

impl ScanSession {
    /// The stored data is consistent: the port cursor is within its sequence
    /// and the list of probes in flight names no port twice.
    pub closed spec fn consistent(&self) -> bool {
        self.ports.wf() && self.in_flight@.no_duplicates()
    }

    /// The session is consistent and its state satisfies the scan invariant.
    pub open spec fn wf(&self) -> bool {
        self.consistent() && self@.wf()
    }

    /// Begins a scan of `target` as `config` asks, with nothing started yet.
    pub fn new(target: ResolvedTarget, config: &ScanConfig) -> (session: ScanSession)
        requires
            config.wf(),
        ensures
            session.wf(),
            session@ == SessionView::initial(target.address, config@),
    {
        let session = ScanSession {
            address: target.address,
            timeout_secs: config.timeout_secs(),
            limit: config.concurrency(),
            ports: get_ports(config.port_selector()),
            in_flight: Vec::new(),
            delivered: Vec::new(),
        };
        proof {
            lemma_initial_is_wf(target.address, config@);
            assert(session.in_flight@.to_set() =~= Set::<u16>::empty());
            assert(session@ =~= SessionView::initial(target.address, config@));
        }
        session
    }

    /// Says what to do next, and counts a probe that it hands out as started.
    ///
    /// A probe is handed out whenever fewer probes are in flight than the limit
    /// allows and a port is left; ports are started in the order of the port
    /// set. Otherwise the answer is to wait while probes are in flight, and
    /// that the scan is finished once none is.
    pub fn next_action(&mut self) -> (action: ScanAction)
        requires
            old(self).wf(),
        ensures
            final(self).wf(),
            action == old(self)@.next_action(),
            final(self)@ == old(self)@.after_event(ScanEvent::Asked),
    {
        proof {
            self.in_flight@.unique_seq_to_set();
        }
        if self.in_flight.len() < self.limit {
            match self.ports.next_port() {
                Some(port) => {
                    self.in_flight.push(port);
                    proof {
                        lemma_start_keeps_wf(old(self)@);
                        old(self).in_flight@.lemma_push_to_set_commute(port);
                        assert(self@ =~= old(self)@.start_next());
                        assert(!old(self).in_flight@.contains(port));
                    }
                    return ScanAction::Probe(
                        ProbeRequest { address: self.address, port, timeout_secs: self.timeout_secs },
                    );
                },
                None => {},
            }
        }
        if self.in_flight.len() > 0 {
            ScanAction::Wait
        } else {
            ScanAction::Finished
        }
    }

    /// Records that the probe of `port` has ended as `attempt` says, and hands
    /// back the result to pass on. A port that is not in flight is refused
    /// with `None`, and nothing changes.
    pub fn complete(&mut self, port: u16, attempt: ConnectAttempt) -> (result: Option<PortResult>)
        requires
            old(self).wf(),
        ensures
            final(self).wf(),
            result == (if old(self)@.in_flight.contains(port) {
                Some(result_of(port, attempt))
            } else {
                None
            }),
            final(self)@ == old(self)@.after_event(ScanEvent::Ended(port, attempt)),
    {
        match position_of(&self.in_flight, port) {
            Some(index) => {
                let result = PortResult::from_attempt(port, attempt);
                self.in_flight.swap_remove(index);
                self.delivered.push(result);
                proof {
                    lemma_swap_remove_set(old(self).in_flight@, index as int);
                    lemma_deliver_keeps_wf(old(self)@, port, attempt);
                    assert(self@ =~= old(self)@.deliver(port, attempt));
                }
                Some(result)
            },
            None => None,
        }
    }

    /// How many probes are in flight: never more than the limit.
    pub fn in_flight_count(&self) -> (count: usize)
        requires
            self.wf(),
        ensures
            count == self@.in_flight.len(),
            count <= self@.limit,
    {
        proof {
            self.in_flight@.unique_seq_to_set();
        }
        self.in_flight.len()
    }

    /// The results handed out so far, in the order in which the probes ended.
    pub fn delivered(&self) -> (results: &Vec<PortResult>)
        ensures
            results@ == self@.delivered,
    {
        &self.delivered
    }

    /// Whether every port has a result.
    pub fn is_finished(&self) -> (finished: bool)
        requires
            self.wf(),
        ensures
            finished == self@.finished(),
    {
        proof {
            self.in_flight@.unique_seq_to_set();
        }
        self.ports.remaining() == 0 && self.in_flight.len() == 0
    }
}

/// Begins the scan that follows a lookup, or surfaces why there is none. A
/// session exists only where the lookup answered with at least one address,
/// and it scans the first of them; `None` stands for a lookup that failed.
pub fn start_scan(config: &ScanConfig, lookup: Option<Vec<IpAddress>>) -> (session: Result<
    ScanSession,
    ResolutionError,
>)
    requires
        config.wf(),
    ensures
        match resolution_of(
            match lookup {
                Some(addresses) => Some(addresses@),
                None => None,
            },
        ) {
            Ok(target) => session is Ok && session->Ok_0.wf() && session->Ok_0@
                == SessionView::initial(target.address, config@),
            Err(error) => session is Err && session->Err_0 == error,
        },
{
    match resolve(lookup) {
        Ok(target) => Ok(ScanSession::new(target, config)),
        Err(error) => Err(error),
    }
}

} // verus!
