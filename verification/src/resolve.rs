//! The address resolver: what is asked of the name lookup, and which of the
//! addresses it answers with is scanned.

use vstd::prelude::*;
use vstd::string::*;

verus! {

/// An IP address, held as the number that its octets spell in network order.
#[derive(Clone, Copy, Debug, PartialEq, Eq, Structural)]
pub enum IpAddress {
    /// An IPv4 address.
    V4(u32),
    /// An IPv6 address.
    V6(u128),
}

/// The single address that a scan probes.
#[derive(Clone, Copy, Debug, PartialEq, Eq, Structural)]
pub struct ResolvedTarget {
    /// The address chosen from the lookup's answer.
    pub address: IpAddress,
}

/// Why a target could not be turned into an address. Each is fatal to the run.
#[derive(Clone, Copy, Debug, PartialEq, Eq, Structural)]
pub enum ResolutionError {
    /// The target string is empty.
    EmptyTarget,
    /// The lookup itself failed.
    LookupFailed,
    /// The lookup succeeded but answered with no address.
    NoAddresses,
}

/// The text handed to the name lookup for `target`: the target, a colon, and
/// port 0 as a placeholder, since a lookup wants a port and none is connected to.
pub open spec fn lookup_query_of(target: Seq<char>) -> Seq<char> {
    target + seq![':', '0']
}

/// The outcome of resolution, given what the lookup answered (`None` where the
/// lookup failed): the first address of a non-empty answer.
pub open spec fn resolution_of(lookup: Option<Seq<IpAddress>>) -> Result<
    ResolvedTarget,
    ResolutionError,
> {
    match lookup {
        None => Err(ResolutionError::LookupFailed),
        Some(addresses) => if addresses.len() == 0 {
            Err(ResolutionError::NoAddresses)
        } else {
            Ok(ResolvedTarget { address: addresses[0] })
        },
    }
}

/// Builds the text to look up for `target`, or rejects an empty target.
pub fn lookup_query(target: &str) -> (query: Result<String, ResolutionError>)
    ensures
        match query {
            Ok(text) => target@.len() > 0 && text@ == lookup_query_of(target@),
            Err(error) => target@.len() == 0 && error == ResolutionError::EmptyTarget,
        },
{
    if target.is_empty() {
        return Err(ResolutionError::EmptyTarget);
    }
    let mut query = String::from_str(target);
    proof {
        reveal_strlit(":0");
    }
    query.append(":0");
    assert(query@ =~= lookup_query_of(target@));
    Ok(query)
}

/// Chooses the address to scan from the lookup's answer: the first one, in the
/// order in which the lookup gave them. `None` stands for a lookup that failed.
pub fn resolve(lookup: Option<Vec<IpAddress>>) -> (target: Result<ResolvedTarget, ResolutionError>)
    ensures
        target == resolution_of(
            match lookup {
                Some(addresses) => Some(addresses@),
                None => None,
            },
        ),
{
    match lookup {
        None => Err(ResolutionError::LookupFailed),
        Some(addresses) => {
            if addresses.len() == 0 {
                Err(ResolutionError::NoAddresses)
            } else {
                Ok(ResolvedTarget { address: addresses[0] })
            }
        },
    }
}

impl ResolutionError {
    /// A one-line description for the user.
    pub fn message(&self) -> (text: &'static str)
        ensures
            text@ == (match *self {
                ResolutionError::EmptyTarget => "The target is empty"@,
                ResolutionError::LookupFailed => "The target could not be resolved"@,
                ResolutionError::NoAddresses => "Socket_addresses list is empty"@,
            }),
    {
        match self {
            ResolutionError::EmptyTarget => "The target is empty",
            ResolutionError::LookupFailed => "The target could not be resolved",
            ResolutionError::NoAddresses => "Socket_addresses list is empty",
        }
    }
}

} // verus!
