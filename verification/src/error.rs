use vstd::prelude::*;

verus! {

/// The errors of candidate construction and handling.
#[derive(Debug, Clone, PartialEq, Eq)]
pub enum Error {
    /// The candidate's address is not an IP address.
    ErrAddressParseFailed,
    /// The network name starts neither with "udp" nor with "tcp".
    ErrDetermineNetworkType,
    /// An error reported by a caller's close handler.
    Other(String),
}

} // verus!
