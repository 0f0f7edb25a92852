use vstd::prelude::*;

verus! {

/// The direction of a TCP candidate (RFC 6544).
#[derive(PartialEq, Eq, Structural, Clone, Copy, Debug)]
pub enum TCPType {
    Unspecified,
    Active,
    Passive,
    SimultaneousOpen,
}

impl TCPType {
    /// The name that `Display` gives the TCP type; the SDP "tcptype" value.
    pub open spec fn name(self) -> Seq<char> {
        match self {
            TCPType::Active => seq!['a', 'c', 't', 'i', 'v', 'e'],
            TCPType::Passive => seq!['p', 'a', 's', 's', 'i', 'v', 'e'],
            TCPType::SimultaneousOpen => seq!['s', 'o'],
            TCPType::Unspecified => seq!['u', 'n', 's', 'p', 'e', 'c', 'i', 'f', 'i', 'e', 'd'],
        }
    }

    /// The text that `Display` writes for the TCP type.
    pub fn to_string(&self) -> (s: String)
        ensures
            s@ == self.name(),
    {
        proof {
            reveal_strlit("active");
            reveal_strlit("passive");
            reveal_strlit("so");
            reveal_strlit("unspecified");
        }
        match self {
            TCPType::Active => String::from_str("active"),
            TCPType::Passive => String::from_str("passive"),
            TCPType::SimultaneousOpen => String::from_str("so"),
            TCPType::Unspecified => String::from_str("unspecified"),
        }
    }
}

} // verus!
