//! The scan as a state machine over mathematical values, and the laws that
//! hold of it.
//!
//! A state says how many ports have been started, which of them are in
//! flight, and which results have been handed out. Two things change it: a
//! probe is started, or a probe in flight ends. The executable session in
//! [`crate::engine`] is proved to follow exactly these transitions.

use crate::config::ScanConfigView;
use crate::port_set::{lemma_port_sequence_valid, port_sequence, PortSelector};
use crate::probe::{result_of, ConnectAttempt, PortResult, ProbeRequest};
use crate::resolve::IpAddress;
use vstd::prelude::*;

verus! {

/// What the caller of a session does next.
#[derive(Clone, Copy, Debug, PartialEq, Eq, Structural)]
pub enum ScanAction {
    /// Start this probe, then ask again.
    Probe(ProbeRequest),
    /// The window is full, or no port is left to start: wait until a probe in
    /// flight has ended, report it, then ask again.
    Wait,
    /// Every port has a result.
    Finished,
}

/// One thing that happens in a scan, as the engine sees it.
pub enum ScanEvent {
    /// The caller asked what to do next.
    Asked,
    /// The caller reported that the probe of this port ended in this way.
    Ended(u16, ConnectAttempt),
}

/// The state of a scan.
pub struct SessionView {
    /// The address that is probed.
    pub address: IpAddress,
    /// The deadline of each probe, in seconds.
    pub timeout_secs: u64,
    /// How many probes may be in flight at once.
    pub limit: nat,
    /// Which ports are probed.
    pub selector: PortSelector,
    /// How many ports have had their probe started.
    pub started: nat,
    /// The ports whose probe is in flight.
    pub in_flight: Set<u16>,
    /// The results handed out so far, in the order in which the probes ended.
    pub delivered: Seq<PortResult>,
}

/// The port of a result.
pub open spec fn port_of(result: PortResult) -> u16 {
    result.port
}

impl SessionView {
    /// Every port of the scan, in the order in which probes are started.
    pub open spec fn ports(self) -> Seq<u16> {
        port_sequence(self.selector)
    }

    /// The ports whose probe has been started.
    pub open spec fn started_ports(self) -> Seq<u16> {
        self.ports().take(self.started as int)
    }

    /// The ports that have a result, in the order of the results.
    pub open spec fn delivered_ports(self) -> Seq<u16> {
        self.delivered.map_values(|result: PortResult| port_of(result))
    }

    /// The invariant of a scan: the window is within its limit, and every
    /// started port is either in flight or has exactly one result.
    pub open spec fn wf(self) -> bool {
        &&& self.limit >= 1
        &&& self.started <= self.ports().len()
        &&& self.in_flight.finite()
        &&& self.in_flight.len() <= self.limit
        &&& self.in_flight.len() + self.delivered.len() == self.started
        &&& self.delivered_ports().no_duplicates()
        &&& forall|port: u16|
            !(self.in_flight.contains(port) && #[trigger] self.delivered_ports().contains(port))
        &&& forall|port: u16|
            #[trigger] self.started_ports().contains(port) <==> (self.in_flight.contains(port)
                || self.delivered_ports().contains(port))
    }

    /// The state in which a scan of `address` under `config` begins.
    pub open spec fn initial(address: IpAddress, config: ScanConfigView) -> SessionView {
        SessionView {
            address,
            timeout_secs: config.timeout_secs,
            limit: config.concurrency,
            selector: config.port_selector,
            started: 0,
            in_flight: Set::empty(),
            delivered: Seq::empty(),
        }
    }

    /// A slot of the window is free and a port is left to start.
    pub open spec fn can_start(self) -> bool {
        self.in_flight.len() < self.limit && self.started < self.ports().len()
    }

    /// Every port has been started and no probe is in flight.
    pub open spec fn finished(self) -> bool {
        self.started == self.ports().len() && self.in_flight.len() == 0
    }

    /// The probe that is started next: the first port not started yet, at the
    /// scan's address, with the scan's timeout.
    pub open spec fn next_request(self) -> ProbeRequest {
        ProbeRequest {
            address: self.address,
            port: self.ports()[self.started as int],
            timeout_secs: self.timeout_secs,
        }
    }

    /// What the caller does next: start a probe as long as a slot is free and a
    /// port is left; else wait as long as a probe is in flight; else stop.
    pub open spec fn next_action(self) -> ScanAction {
        if self.can_start() {
            ScanAction::Probe(self.next_request())
        } else if self.in_flight.len() > 0 {
            ScanAction::Wait
        } else {
            ScanAction::Finished
        }
    }

    /// The state after the next probe has been started.
    pub open spec fn start_next(self) -> SessionView {
        SessionView {
            started: self.started + 1,
            in_flight: self.in_flight.insert(self.ports()[self.started as int]),
            ..self
        }
    }

    /// The state after the probe of `port` has ended as `attempt` says.
    pub open spec fn deliver(self, port: u16, attempt: ConnectAttempt) -> SessionView {
        SessionView {
            in_flight: self.in_flight.remove(port),
            delivered: self.delivered.push(result_of(port, attempt)),
            ..self
        }
    }

    /// The state after one event. Asking starts a probe where one can be
    /// started; the end of a probe counts only for a port in flight.
    pub open spec fn after_event(self, event: ScanEvent) -> SessionView {
        match event {
            ScanEvent::Asked => if self.can_start() {
                self.start_next()
            } else {
                self
            },
            ScanEvent::Ended(port, attempt) => if self.in_flight.contains(port) {
                self.deliver(port, attempt)
            } else {
                self
            },
        }
    }

    /// The state after a run of events, first to last.
    pub open spec fn after_events(self, events: Seq<ScanEvent>) -> SessionView
        decreases events.len(),
    {
        if events.len() == 0 {
            self
        } else {
            self.after_events(events.drop_last()).after_event(events.last())
        }
    }
}

/// A scan begins in a well-formed state, with nothing started and so not
/// finished.
pub proof fn lemma_initial_is_wf(address: IpAddress, config: ScanConfigView)
    requires
        config.concurrency >= 1,
    ensures
        SessionView::initial(address, config).wf(),
        !SessionView::initial(address, config).finished(),
{
    let s = SessionView::initial(address, config);
    lemma_port_sequence_valid(s.selector);
    assert(s.started_ports() =~= Seq::<u16>::empty());
    assert(s.delivered_ports() =~= Seq::<u16>::empty());
}

/// Starting a probe keeps the invariant, and the port that is started is
/// neither in flight nor reported yet.
pub proof fn lemma_start_keeps_wf(s: SessionView)
    requires
        s.wf(),
        s.can_start(),
    ensures
        s.start_next().wf(),
        !s.in_flight.contains(s.ports()[s.started as int]),
        !s.delivered_ports().contains(s.ports()[s.started as int]),
{
    let t = s.start_next();
    let port = s.ports()[s.started as int];
    lemma_port_sequence_valid(s.selector);
    assert(t.started_ports() =~= s.started_ports().push(port));
    assert(!s.started_ports().contains(port)) by {
        if s.started_ports().contains(port) {
            let i = choose|i: int| 0 <= i < s.started_ports().len() && s.started_ports()[i] == port;
            assert(s.ports()[i] == s.ports()[s.started as int]);
        }
    }
    assert(t.delivered_ports() =~= s.delivered_ports());
    assert forall|p: u16|
        #[trigger] t.started_ports().contains(p) <==> (t.in_flight.contains(p)
            || t.delivered_ports().contains(p)) by {
        if p == port {
            assert(t.started_ports()[s.started as int] == port);
        } else {
            if t.started_ports().contains(p) {
                let i = choose|i: int| 0 <= i < t.started_ports().len() && t.started_ports()[i] == p;
                assert(s.started_ports()[i] == p);
            }
            if s.started_ports().contains(p) {
                let i = choose|i: int| 0 <= i < s.started_ports().len() && s.started_ports()[i] == p;
                assert(t.started_ports()[i] == p);
            }
        }
    }
}

/// Reporting the end of a probe in flight keeps the invariant.
pub proof fn lemma_deliver_keeps_wf(s: SessionView, port: u16, attempt: ConnectAttempt)
    requires
        s.wf(),
        s.in_flight.contains(port),
    ensures
        s.deliver(port, attempt).wf(),
{
    let t = s.deliver(port, attempt);
    assert(t.delivered_ports() =~= s.delivered_ports().push(port));
    assert(t.started_ports() =~= s.started_ports());
    assert(!s.delivered_ports().contains(port));
    assert forall|p: u16|
        #[trigger] t.delivered_ports().contains(p) <==> (s.delivered_ports().contains(p)
            || p == port) by {
        if t.delivered_ports().contains(p) && p != port {
            let i = choose|i: int| 0 <= i < t.delivered_ports().len() && t.delivered_ports()[i] == p;
            assert(s.delivered_ports()[i] == p);
        }
        if s.delivered_ports().contains(p) {
            let i = choose|i: int| 0 <= i < s.delivered_ports().len() && s.delivered_ports()[i] == p;
            assert(t.delivered_ports()[i] == p);
        }
        if p == port {
            assert(t.delivered_ports()[s.delivered_ports().len() as int] == port);
        }
    }
    assert(t.delivered_ports().no_duplicates());
}

/// Every event keeps the invariant, and leaves the limit and the port set as
/// they were.
pub proof fn lemma_event_keeps_wf(s: SessionView, event: ScanEvent)
    requires
        s.wf(),
    ensures
        s.after_event(event).wf(),
        s.after_event(event).limit == s.limit,
        s.after_event(event).selector == s.selector,
{
    match event {
        ScanEvent::Asked => {
            if s.can_start() {
                lemma_start_keeps_wf(s);
            }
        },
        ScanEvent::Ended(port, attempt) => {
            if s.in_flight.contains(port) {
                lemma_deliver_keeps_wf(s, port, attempt);
            }
        },
    }
}

/// In a well-formed state no more probes are in flight than the limit allows,
/// each of them belongs to a port that was started and has no result yet, and
/// every started port is accounted for.
pub proof fn lemma_window_is_bounded(s: SessionView)
    requires
        s.wf(),
    ensures
        s.in_flight.len() <= s.limit,
        s.in_flight.len() + s.delivered.len() == s.started,
        forall|port: u16|
            s.in_flight.contains(port) ==> s.started_ports().contains(port)
                && !s.delivered_ports().contains(port),
{
}

/// The concurrency bound. At no point of a scan are more probes in flight
/// than the configured concurrency: whatever is asked and reported, in
/// whatever order, the state stays well formed and has at most
/// `config.concurrency` probes in flight.
pub proof fn lemma_bound_holds_throughout(
    address: IpAddress,
    config: ScanConfigView,
    events: Seq<ScanEvent>,
)
    requires
        config.concurrency >= 1,
    ensures
        SessionView::initial(address, config).after_events(events).wf(),
        SessionView::initial(address, config).after_events(events).limit == config.concurrency,
        SessionView::initial(address, config).after_events(events).selector
            == config.port_selector,
        SessionView::initial(address, config).after_events(events).in_flight.len()
            <= config.concurrency,
    decreases events.len(),
{
    if events.len() == 0 {
        lemma_initial_is_wf(address, config);
    } else {
        lemma_bound_holds_throughout(address, config, events.drop_last());
        lemma_event_keeps_wf(
            SessionView::initial(address, config).after_events(events.drop_last()),
            events.last(),
        );
    }
}

/// The window slides. A probe is started whenever a slot is free and a port
/// is left, so the engine never waits for a batch to drain; it asks the caller
/// to wait only while a probe is in flight; and it reports the end exactly
/// when the scan is finished.
pub proof fn lemma_window_slides(s: SessionView)
    requires
        s.wf(),
    ensures
        s.next_action() is Probe <==> s.in_flight.len() < s.limit && s.started < s.ports().len(),
        s.next_action() is Wait ==> s.in_flight.len() > 0 && (s.in_flight.len() == s.limit
            || s.started == s.ports().len()),
        s.next_action() is Finished <==> s.finished(),
{
}

/// Exhaustiveness of a finished state: it holds exactly one result for each
/// port of its port set, 1002 of them for the common ports and 65535 for the
/// full range, with no port twice and none left out.
pub proof fn lemma_finished_is_exhaustive(s: SessionView)
    requires
        s.wf(),
        s.finished(),
    ensures
        s.delivered.len() == s.ports().len(),
        s.delivered.len() == (if s.selector == PortSelector::Common {
            1002nat
        } else {
            65535nat
        }),
        s.delivered_ports().no_duplicates(),
        forall|port: u16| s.ports().contains(port) <==> s.delivered_ports().contains(port),
        s.delivered_ports().to_set() == s.ports().to_set(),
{
    lemma_port_sequence_valid(s.selector);
    assert(s.started_ports() =~= s.ports());
    assert(s.in_flight =~= Set::<u16>::empty()) by {
        if exists|port: u16| s.in_flight.contains(port) {
            let port = choose|port: u16| s.in_flight.contains(port);
            assert(s.in_flight.remove(port).len() + 1 == s.in_flight.len());
        }
    }
    assert forall|port: u16| s.ports().contains(port) <==> s.delivered_ports().contains(port) by {
        assert(s.started_ports().contains(port) <==> (s.in_flight.contains(port)
            || s.delivered_ports().contains(port)));
    }
    assert(s.delivered_ports().to_set() =~= s.ports().to_set());
}

/// Exhaustiveness of every scan. However a scan under `config` ran, once it is
/// finished the number of results equals the size of the port set that
/// `config` selects, and the results name each port of that set exactly once.
pub proof fn lemma_every_finished_scan_is_exhaustive(
    address: IpAddress,
    config: ScanConfigView,
    events: Seq<ScanEvent>,
)
    requires
        config.concurrency >= 1,
        SessionView::initial(address, config).after_events(events).finished(),
    ensures
        ({
            let end = SessionView::initial(address, config).after_events(events);
            &&& end.delivered.len() == port_sequence(config.port_selector).len()
            &&& end.delivered.len() == (if config.port_selector == PortSelector::Common {
                1002nat
            } else {
                65535nat
            })
            &&& end.delivered_ports().no_duplicates()
            &&& end.delivered_ports().to_set() == port_sequence(config.port_selector).to_set()
        }),
{
    lemma_bound_holds_throughout(address, config, events);
    lemma_finished_is_exhaustive(SessionView::initial(address, config).after_events(events));
}

} // verus!
