//! Why a deployment step failed.
use vstd::prelude::*;

verus! {

/// The failures that the library reports.
#[derive(Debug)]
pub enum DeployError {
    /// A remote operation failed or timed out; its message, with error output.
    Transport(String),
    /// Fetching and extracting the base system of this release failed; the message.
    BaseFetch(String, String),
    /// The subnet is not a /24 written as four dotted parts.
    InvalidSubnet(String),
    /// Every host address of the subnet is already aliased.
    NoAddressAvailable(String),
    /// A declared secret is not set in the operator's environment.
    MissingSecret(String),
    /// The clock gave a year that a jail name cannot hold.
    ClockOutOfRange,
}

} // verus!
