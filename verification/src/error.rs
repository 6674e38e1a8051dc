//! The ways in which discovery fails.

use vstd::prelude::*;

verus! {

/// Why no handle, or no list of handles, could be returned.
///
/// The four kinds are told apart by the variant, never by a message: "no
/// player is running", "the bus could not be asked" and "nothing is playing"
/// call for different reactions.
#[derive(Debug)]
pub enum DiscoveryError {
    /// A handle could not be made: the destination is no bus name, or the
    /// binding was rejected. It carries what `zbus` reported.
    Construction(zbus::Error),
    /// The registry could not be asked for its names. It carries what `zbus`
    /// reported.
    Discovery(zbus::Error),
    /// No registered name is a player's name.
    NotFound,
    /// Players were found, or none, but none of them is playing.
    NoActivePlayer,
}

impl DiscoveryError {
    /// The message of the two kinds that come with a fixed message; nothing
    /// for the two that carry an error of the bus.
    pub open spec fn fixed_message(self) -> Option<Seq<char>> {
        match self {
            DiscoveryError::NotFound => Some("No MPRIS2 instances found."@),
            DiscoveryError::NoActivePlayer => Some("No currently active player found!"@),
            _ => None,
        }
    }

    /// A message for the user: the fixed one, or a general one where the bus
    /// reported the failure.
    pub fn message(&self) -> (text: &'static str)
        ensures
            self.fixed_message() matches Some(fixed) ==> text@ == fixed,
            self is Construction ==> text@ == "The player handle could not be made."@,
            self is Discovery ==> text@ == "The bus could not list its names."@,
    {
        match self {
            DiscoveryError::Construction(_) => "The player handle could not be made.",
            DiscoveryError::Discovery(_) => "The bus could not list its names.",
            DiscoveryError::NotFound => "No MPRIS2 instances found.",
            DiscoveryError::NoActivePlayer => "No currently active player found!",
        }
    }
}

} // verus!
