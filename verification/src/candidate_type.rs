use vstd::prelude::*;

verus! {

/// The kind of an ICE candidate (RFC 8445, section 5.1.1).
#[derive(PartialEq, Eq, Structural, Clone, Copy, Debug)]
pub enum CandidateType {
    Unspecified,
    Host,
    ServerReflexive,
    PeerReflexive,
    Relay,
}

impl CandidateType {
    /// The name that `Display` gives the candidate type; the SDP "typ" value.
    pub open spec fn name(self) -> Seq<char> {
        match self {
            CandidateType::Host => seq!['h', 'o', 's', 't'],
            CandidateType::ServerReflexive => seq!['s', 'r', 'f', 'l', 'x'],
            CandidateType::PeerReflexive => seq!['p', 'r', 'f', 'l', 'x'],
            CandidateType::Relay => seq!['r', 'e', 'l', 'a', 'y'],
            CandidateType::Unspecified => seq![
                'U', 'n', 'k', 'n', 'o', 'w', 'n', ' ', 'c', 'a', 'n', 'd', 'i', 'd', 'a', 't', 'e',
                ' ', 't', 'y', 'p', 'e'
            ],
        }
    }

    /// The type preference of RFC 8445, section 5.1.2.2: 126 for host
    /// candidates, 110 for peer reflexive, 100 for server reflexive, 0 for
    /// relayed ones.
    #[verifier::allow_in_spec]
    pub fn preference(&self) -> u16
        returns
            (match *self {
                CandidateType::Host => 126u16,
                CandidateType::PeerReflexive => 110u16,
                CandidateType::ServerReflexive => 100u16,
                CandidateType::Relay | CandidateType::Unspecified => 0u16,
            }),
    {
        match self {
            CandidateType::Host => 126,
            CandidateType::PeerReflexive => 110,
            CandidateType::ServerReflexive => 100,
            CandidateType::Relay | CandidateType::Unspecified => 0,
        }
    }

    /// The text that `Display` writes for the candidate type.
    pub fn to_string(&self) -> (s: String)
        ensures
            s@ == self.name(),
    {
        proof {
            reveal_strlit("host");
            reveal_strlit("srflx");
            reveal_strlit("prflx");
            reveal_strlit("relay");
            reveal_strlit("Unknown candidate type");
        }
        match self {
            CandidateType::Host => String::from_str("host"),
            CandidateType::ServerReflexive => String::from_str("srflx"),
            CandidateType::PeerReflexive => String::from_str("prflx"),
            CandidateType::Relay => String::from_str("relay"),
            CandidateType::Unspecified => String::from_str("Unknown candidate type"),
        }
    }
}

} // verus!
