use vstd::prelude::*;
use crate::network_type::NetworkType;

verus! {

/// An IP address, held as the integer of its bits (big-endian, as std's
/// `From<Ipv4Addr> for u32` and `From<Ipv6Addr> for u128` give it).
#[derive(PartialEq, Eq, Structural, Clone, Copy, Debug)]
pub enum IpAddress {
    V4(u32),
    V6(u128),
}

impl IpAddress {
    #[verifier::allow_in_spec]
    pub fn is_ipv4(&self) -> bool
        returns
            self is V4,
    {
        match self {
            IpAddress::V4(_) => true,
            IpAddress::V6(_) => false,
        }
    }
}

/// An IP address with a port.
#[derive(PartialEq, Eq, Structural, Clone, Copy, Debug)]
pub struct SocketAddress {
    pub ip: IpAddress,
    pub port: u16,
}

/// The transport address of a candidate: `ip` with `port`. The network type
/// does not enter into it.
pub fn create_addr(network: NetworkType, ip: IpAddress, port: u16) -> (a: SocketAddress)
    ensures
        a == (SocketAddress { ip, port }),
{
    SocketAddress { ip, port }
}

} // verus!
