//! The port set generator: the ordered, duplicate-free sequence of ports that
//! a scan probes, and a cursor that hands them out one by one.

use crate::ports::{common_port_at, common_ports, lemma_common_ports_valid, COMMON_PORT_COUNT};
use vstd::prelude::*;

verus! {

/// Which set of ports a scan covers.
#[derive(Clone, Copy, Debug, PartialEq, Eq, Structural)]
pub enum PortSelector {
    /// The curated table of commonly open ports.
    Common,
    /// Every port from 1 to 65535.
    Full,
}

/// Number of ports in the full range.
pub const FULL_RANGE_COUNT: usize = 65535;

/// The ports 1, 2, ..., 65535.
pub open spec fn full_range() -> Seq<u16> {
    Seq::new(65535, |i: int| (i + 1) as u16)
}

/// The ports that `selector` stands for, in the order in which they are probed.
pub open spec fn port_sequence(selector: PortSelector) -> Seq<u16> {
    match selector {
        PortSelector::Common => common_ports(),
        PortSelector::Full => full_range(),
    }
}

/// Whatever the selector, its sequence has a fixed length, holds no port
/// twice, and holds only ports between 1 and 65535.
pub proof fn lemma_port_sequence_valid(selector: PortSelector)
    ensures
        port_sequence(selector).len() == (if selector == PortSelector::Common {
            1002nat
        } else {
            65535nat
        }),
        port_sequence(selector).no_duplicates(),
        forall|i: int|
            0 <= i < port_sequence(selector).len() ==> 1 <= #[trigger] port_sequence(selector)[i]
                && port_sequence(selector)[i] <= 65535,
{
    match selector {
        PortSelector::Common => {
            lemma_common_ports_valid();
        },
        PortSelector::Full => {},
    }
}

impl PortSelector {
    /// The selector that the full-range switch asks for.
    pub fn from_full_flag(full: bool) -> (selector: PortSelector)
        ensures
            selector == (if full {
                PortSelector::Full
            } else {
                PortSelector::Common
            }),
    {
        if full {
            PortSelector::Full
        } else {
            PortSelector::Common
        }
    }

    /// How many ports the selector stands for.
    pub fn port_count(self) -> (count: usize)
        ensures
            count == port_sequence(self).len(),
            count == 1002 || count == 65535,
    {
        proof {
            lemma_port_sequence_valid(self);
        }
        match self {
            PortSelector::Common => COMMON_PORT_COUNT,
            PortSelector::Full => FULL_RANGE_COUNT,
        }
    }

    /// The port at position `index` of the selector's sequence.
    pub fn port_at(self, index: usize) -> (port: u16)
        requires
            index < port_sequence(self).len(),
        ensures
            port == port_sequence(self)[index as int],
            1 <= port <= 65535,
    {
        proof {
            lemma_port_sequence_valid(self);
        }
        match self {
            PortSelector::Common => common_port_at(index),
            PortSelector::Full => (index + 1) as u16,
        }
    }
}

/// A finite sequence of ports that is handed out front to back, once.
pub struct PortSet {
    selector: PortSelector,
    produced: usize,
}

impl View for PortSet {
    type V = Seq<u16>;

    /// The ports that have not been handed out yet, in order.
    open spec fn view(&self) -> Seq<u16> {
        port_sequence(self.selector()).skip(self.produced() as int)
    }
}

impl PortSet {
    /// The selector that the set was generated from.
    pub closed spec fn selector(&self) -> PortSelector {
        self.selector
    }

    /// How many ports have been handed out so far.
    pub closed spec fn produced(&self) -> nat {
        self.produced as nat
    }

    /// No more ports have been handed out than the sequence holds.
    pub open spec fn wf(&self) -> bool {
        self.produced() <= port_sequence(self.selector()).len()
    }

    /// Hands out the next port, or `None` once the set is used up.
    pub fn next_port(&mut self) -> (port: Option<u16>)
        requires
            old(self).wf(),
        ensures
            final(self).wf(),
            final(self).selector() == old(self).selector(),
            port == (if old(self)@.len() == 0 {
                None
            } else {
                Some(old(self)@[0])
            }),
            final(self).produced() == (if old(self)@.len() == 0 {
                old(self).produced()
            } else {
                old(self).produced() + 1
            }),
            final(self)@ == (if old(self)@.len() == 0 {
                old(self)@
            } else {
                old(self)@.skip(1)
            }),
    {
        let total = self.selector.port_count();
        if self.produced < total {
            let port = self.selector.port_at(self.produced);
            self.produced = self.produced + 1;
            Some(port)
        } else {
            None
        }
    }

    /// How many ports are still to be handed out.
    pub fn remaining(&self) -> (count: usize)
        requires
            self.wf(),
        ensures
            count == self@.len(),
    {
        self.selector.port_count() - self.produced
    }
}

/// Generates the port set for `selector`, with nothing handed out yet.
pub fn get_ports(selector: PortSelector) -> (ports: PortSet)
    ensures
        ports.wf(),
        ports.selector() == selector,
        ports.produced() == 0,
        ports@ == port_sequence(selector),
{
    PortSet { selector, produced: 0 }
}

/// Generation is a function of the selector alone: two freshly generated sets
/// for the same selector hold the same ports in the same order.
pub proof fn lemma_generation_is_repeatable(first: PortSet, second: PortSet)
    requires
        first.produced() == 0,
        second.produced() == 0,
        first.selector() == second.selector(),
    ensures
        first@ == second@,
        first@ == port_sequence(first.selector()),
{
}

} // verus!
