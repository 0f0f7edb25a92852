use vstd::prelude::*;
use crate::address::IpAddress;
use crate::error::Error;

verus! {

/// The transport and IP family of a candidate.
#[derive(PartialEq, Eq, Structural, Clone, Copy, Debug)]
pub enum NetworkType {
    Unspecified,
    Udp4,
    Udp6,
    Tcp4,
    Tcp6,
}

impl NetworkType {
    /// The name that `Display` gives the network type.
    pub open spec fn name(self) -> Seq<char> {
        match self {
            NetworkType::Udp4 => seq!['u', 'd', 'p', '4'],
            NetworkType::Udp6 => seq!['u', 'd', 'p', '6'],
            NetworkType::Tcp4 => seq!['t', 'c', 'p', '4'],
            NetworkType::Tcp6 => seq!['t', 'c', 'p', '6'],
            NetworkType::Unspecified => seq!['u', 'n', 's', 'p', 'e', 'c', 'i', 'f', 'i', 'e', 'd'],
        }
    }

    /// The short network name used in the SDP candidate line.
    pub open spec fn short_name(self) -> Seq<char> {
        match self {
            NetworkType::Udp4 | NetworkType::Udp6 => seq!['u', 'd', 'p'],
            NetworkType::Tcp4 | NetworkType::Tcp6 => seq!['t', 'c', 'p'],
            NetworkType::Unspecified => seq!['U', 'n', 's', 'p', 'e', 'c', 'i', 'f', 'i', 'e', 'd'],
        }
    }

    #[verifier::allow_in_spec]
    pub fn is_udp(&self) -> bool
        returns
            (*self == NetworkType::Udp4 || *self == NetworkType::Udp6),
    {
        match self {
            NetworkType::Udp4 | NetworkType::Udp6 => true,
            _ => false,
        }
    }

    #[verifier::allow_in_spec]
    pub fn is_tcp(&self) -> bool
        returns
            (*self == NetworkType::Tcp4 || *self == NetworkType::Tcp6),
    {
        match self {
            NetworkType::Tcp4 | NetworkType::Tcp6 => true,
            _ => false,
        }
    }

    /// The text that `Display` writes for the network type.
    pub fn to_string(&self) -> (s: String)
        ensures
            s@ == self.name(),
    {
        proof {
            reveal_strlit("udp4");
            reveal_strlit("udp6");
            reveal_strlit("tcp4");
            reveal_strlit("tcp6");
            reveal_strlit("unspecified");
        }
        match self {
            NetworkType::Udp4 => String::from_str("udp4"),
            NetworkType::Udp6 => String::from_str("udp6"),
            NetworkType::Tcp4 => String::from_str("tcp4"),
            NetworkType::Tcp6 => String::from_str("tcp6"),
            NetworkType::Unspecified => String::from_str("unspecified"),
        }
    }

    /// "udp" or "tcp", the transport name of the SDP candidate line.
    pub fn network_short(&self) -> (s: String)
        ensures
            s@ == self.short_name(),
    {
        proof {
            reveal_strlit("udp");
            reveal_strlit("tcp");
            reveal_strlit("Unspecified");
        }
        match self {
            NetworkType::Udp4 | NetworkType::Udp6 => String::from_str("udp"),
            NetworkType::Tcp4 | NetworkType::Tcp6 => String::from_str("tcp"),
            NetworkType::Unspecified => String::from_str("Unspecified"),
        }
    }
}

/// The code of `c`, with the ASCII capitals 'A' to 'Z' taken to their small letters.
pub open spec fn ascii_lower(c: char) -> u32 {
    if 'A' <= c && c <= 'Z' {
        (c as u32 + 32) as u32
    } else {
        c as u32
    }
}

/// `s` begins with `prefix`, letters compared without regard to ASCII case.
///
/// For the prefixes "udp" and "tcp" this is the same as lower-casing `s` in full
/// (Unicode) and testing the prefix: no character but 'U', 'D', 'P', 'T' and 'C'
/// lower-cases to text that begins with one of those letters.
pub open spec fn starts_with_ignore_case(s: Seq<char>, prefix: Seq<char>) -> bool {
    &&& prefix.len() <= s.len()
    &&& forall|i: int| 0 <= i < prefix.len() ==> #[trigger] ascii_lower(s[i]) == prefix[i] as u32
}

/// The network type that `network` and the family of `ip` give, if any.
pub open spec fn network_type_of(network: Seq<char>, ip: IpAddress) -> Option<NetworkType> {
    if starts_with_ignore_case(network, seq!['u', 'd', 'p']) {
        Some(if ip is V4 { NetworkType::Udp4 } else { NetworkType::Udp6 })
    } else if starts_with_ignore_case(network, seq!['t', 'c', 'p']) {
        Some(if ip is V4 { NetworkType::Tcp4 } else { NetworkType::Tcp6 })
    } else {
        None
    }
}

fn starts_with_prefix_ignore_case(s: &str, prefix: &str) -> (b: bool)
    ensures
        b == starts_with_ignore_case(s@, prefix@),
{
    let n = s.unicode_len();
    let m = prefix.unicode_len();
    if n < m {
        return false;
    }
    let mut i: usize = 0;
    while i < m
        invariant
            m == prefix@.len(),
            n == s@.len(),
            m <= n,
            i <= m,
            forall|j: int| 0 <= j < i ==> #[trigger] ascii_lower(s@[j]) == prefix@[j] as u32,
        decreases m - i,
    {
        let c = s.get_char(i);
        let p = prefix.get_char(i);
        let lower: u32 = if 'A' <= c && c <= 'Z' {
            (c as u32) + 32
        } else {
            c as u32
        };
        if lower != (p as u32) {
            assert(ascii_lower(s@[i as int]) != prefix@[i as int] as u32);
            return false;
        }
        i = i + 1;
    }
    true
}

/// Picks the network type from the network name ("udp..." or "tcp...", in any
/// case) and the family of the IP address.
pub fn determine_network_type(network: &str, ip: &IpAddress) -> (r: Result<NetworkType, Error>)
    ensures
        match network_type_of(network@, *ip) {
            Some(t) => r == Ok::<NetworkType, Error>(t),
            None => r == Err::<NetworkType, Error>(Error::ErrDetermineNetworkType),
        },
{
    proof {
        reveal_strlit("udp");
        reveal_strlit("tcp");
    }
    let ipv4 = ip.is_ipv4();
    if starts_with_prefix_ignore_case(network, "udp") {
        if ipv4 {
            Ok(NetworkType::Udp4)
        } else {
            Ok(NetworkType::Udp6)
        }
    } else if starts_with_prefix_ignore_case(network, "tcp") {
        if ipv4 {
            Ok(NetworkType::Tcp4)
        } else {
            Ok(NetworkType::Tcp6)
        }
    } else {
        Err(Error::ErrDetermineNetworkType)
    }
}

} // verus!
