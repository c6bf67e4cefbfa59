//! The connect probe: what one probe is asked to do, how its attempt is
//! classified, and the line that reports an open port.

use crate::resolve::IpAddress;
use vstd::prelude::*;
use vstd::string::*;

verus! {

/// One TCP connect attempt to be made: where to, and for how long at most.
#[derive(Clone, Copy, Debug, PartialEq, Eq, Structural)]
pub struct ProbeRequest {
    /// The address to connect to.
    pub address: IpAddress,
    /// The port to connect to.
    pub port: u16,
    /// The deadline of the attempt, in seconds from its start.
    pub timeout_secs: u64,
}

/// How a connect attempt ended.
#[derive(Clone, Copy, Debug, PartialEq, Eq, Structural)]
pub enum ConnectAttempt {
    /// The connection was established before the deadline.
    Established,
    /// The connection was refused, or failed with another connect-level error.
    Failed,
    /// The deadline elapsed first, and the attempt was abandoned.
    DeadlineElapsed,
}

/// The state of a port as a scan reports it.
#[derive(Clone, Copy, Debug, PartialEq, Eq, Structural)]
pub enum PortOutcome {
    /// A connection was accepted.
    Open,
    /// Refused, timed out or unreachable: the three are not told apart.
    NotOpen,
}

/// What a scan reports of one port.
#[derive(Clone, Copy, Debug, PartialEq, Eq, Structural)]
pub struct PortResult {
    /// The port probed.
    pub port: u16,
    /// What the probe found.
    pub outcome: PortOutcome,
}

/// The outcome that an attempt stands for: only an established connection
/// counts as open.
pub open spec fn outcome_of(attempt: ConnectAttempt) -> PortOutcome {
    match attempt {
        ConnectAttempt::Established => PortOutcome::Open,
        ConnectAttempt::Failed => PortOutcome::NotOpen,
        ConnectAttempt::DeadlineElapsed => PortOutcome::NotOpen,
    }
}

/// The result reported for `port` after `attempt`.
pub open spec fn result_of(port: u16, attempt: ConnectAttempt) -> PortResult {
    PortResult { port, outcome: outcome_of(attempt) }
}

/// Classifies one connect attempt.
pub fn classify(attempt: ConnectAttempt) -> (outcome: PortOutcome)
    ensures
        outcome == outcome_of(attempt),
{
    match attempt {
        ConnectAttempt::Established => PortOutcome::Open,
        ConnectAttempt::Failed => PortOutcome::NotOpen,
        ConnectAttempt::DeadlineElapsed => PortOutcome::NotOpen,
    }
}

/// The character for the decimal digit `d`.
pub open spec fn digit_char(d: int) -> char {
    seq!['0', '1', '2', '3', '4', '5', '6', '7', '8', '9'][d]
}

/// The decimal numeral of `n`, without leading zeros.
pub open spec fn decimal(n: nat) -> Seq<char>
    decreases n,
{
    if n < 10 {
        seq![digit_char(n as int)]
    } else {
        decimal(n / 10).push(digit_char((n % 10) as int))
    }
}

/// The label that a report line starts with: the port's numeral and a colon.
pub open spec fn label_of(port: u16) -> Seq<char> {
    decimal(port as nat).push(':')
}

/// The line that reports `port` as open.
pub open spec fn open_line_of(port: u16) -> Seq<char> {
    label_of(port) + seq![' ', 'o', 'p', 'e', 'n']
}

fn digit_text(d: u16) -> (text: &'static str)
    requires
        d < 10,
    ensures
        text@ == seq![digit_char(d as int)],
{
    proof {
        reveal_strlit("0");
        reveal_strlit("1");
        reveal_strlit("2");
        reveal_strlit("3");
        reveal_strlit("4");
        reveal_strlit("5");
        reveal_strlit("6");
        reveal_strlit("7");
        reveal_strlit("8");
        reveal_strlit("9");
    }
    let text = match d {
        0 => "0",
        1 => "1",
        2 => "2",
        3 => "3",
        4 => "4",
        5 => "5",
        6 => "6",
        7 => "7",
        8 => "8",
        _ => "9",
    };
    assert(text@ =~= seq![digit_char(d as int)]);
    text
}

/// Writes `n` as a decimal numeral.
pub fn decimal_text(n: u16) -> (text: String)
    ensures
        text@ == decimal(n as nat),
    decreases n,
{
    if n < 10 {
        String::from_str(digit_text(n))
    } else {
        let mut text = decimal_text(n / 10);
        text.append(digit_text(n % 10));
        assert(text@ =~= decimal(n as nat));
        text
    }
}

/// The label of a report line for `port`, such as `22:`.
pub fn port_label(port: u16) -> (label: String)
    ensures
        label@ == label_of(port),
{
    let mut label = decimal_text(port);
    proof {
        reveal_strlit(":");
    }
    label.append(":");
    assert(label@ =~= label_of(port));
    label
}

impl PortResult {
    /// The result of probing `port`, given how the attempt ended.
    pub fn from_attempt(port: u16, attempt: ConnectAttempt) -> (result: PortResult)
        ensures
            result == result_of(port, attempt),
    {
        PortResult { port, outcome: classify(attempt) }
    }

    /// Whether the port accepted a connection.
    pub fn is_open(&self) -> (open: bool)
        ensures
            open == (self.outcome == PortOutcome::Open),
    {
        match self.outcome {
            PortOutcome::Open => true,
            PortOutcome::NotOpen => false,
        }
    }

    /// The line to print for this result: `<port>: open` for an open port,
    /// nothing for any other.
    pub fn report_line(&self) -> (line: Option<String>)
        ensures
            match line {
                Some(text) => self.outcome == PortOutcome::Open && text@ == open_line_of(self.port),
                None => self.outcome == PortOutcome::NotOpen,
            },
    {
        match self.outcome {
            PortOutcome::Open => {
                let mut line = port_label(self.port);
                proof {
                    reveal_strlit(" open");
                }
                line.append(" open");
                assert(line@ =~= open_line_of(self.port));
                Some(line)
            },
            PortOutcome::NotOpen => None,
        }
    }
}

} // verus!
