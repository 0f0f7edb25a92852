use vstd::prelude::*;
use std::time::Instant;
use crate::address::{create_addr, IpAddress, SocketAddress};
use crate::candidate_type::CandidateType;
use crate::tcp_type::TCPType;
use crate::checksum::{crc32, crc32_checksum};
use crate::decimal::{decimal, decimal_string};
use crate::error::Error;
use crate::network_type::{determine_network_type, network_type_of, starts_with_ignore_case, NetworkType};
use crate::time::instant_now;
use vstd::utf8::encode_utf8;

verus! {

/// The local preference of a UDP candidate, and of any that is not TCP
/// (RFC 8445, section 5.1.2.1: 65535 when there is a single IP address).
pub const DEFAULT_LOCAL_PREFERENCE: u16 = 65535;

/// What is common to the configurations of all candidate kinds.
pub struct CandidateBaseConfig {
    pub candidate_id: String,
    pub network: String,
    pub address: String,
    pub port: u16,
    pub component: u16,
    pub priority: u32,
    pub foundation: String,
}

/// The address a reflexive or relayed candidate was obtained from.
#[derive(Debug, Clone)]
pub struct CandidateRelatedAddress {
    pub address: String,
    pub port: u16,
}

impl View for CandidateRelatedAddress {
    type V = (Seq<char>, u16);

    open spec fn view(&self) -> (Seq<char>, u16) {
        (self.address@, self.port)
    }
}

impl CandidateRelatedAddress {
    /// The text that `Display` writes: " related {address}:{port}".
    pub open spec fn text(self) -> Seq<char> {
        seq![' ', 'r', 'e', 'l', 'a', 't', 'e', 'd', ' '] + self.address@ + seq![':']
            + decimal(self.port as nat)
    }

    /// A copy with the same address and port.
    pub fn copy(&self) -> (r: CandidateRelatedAddress)
        ensures
            r@ == self@,
    {
        CandidateRelatedAddress { address: self.address.clone(), port: self.port }
    }

    /// The text that `Display` writes for the related address.
    pub fn to_string(&self) -> (s: String)
        ensures
            s@ == self.text(),
    {
        proof {
            reveal_strlit(" related ");
            reveal_strlit(":");
        }
        let mut s = String::from_str(" related ");
        s.append(self.address.as_str());
        s.append(":");
        s.append(decimal_string(self.port as u32).as_str());
        s
    }
}

/// The view of an optional related address.
pub open spec fn related_view(r: Option<CandidateRelatedAddress>) -> Option<(Seq<char>, u16)> {
    match r {
        Some(a) => Some(a@),
        None => None,
    }
}

/// The direction preference of RFC 6544, section 4.2: for host and relayed
/// candidates 6 when active, 4 when passive, 2 for simultaneous-open; for
/// reflexive ones 6 for simultaneous-open, 4 when active, 2 when passive.
pub open spec fn direction_preference(candidate_type: CandidateType, tcp_type: TCPType) -> u16 {
    match candidate_type {
        CandidateType::Host | CandidateType::Relay => match tcp_type {
            TCPType::Active => 6u16,
            TCPType::Passive => 4u16,
            TCPType::SimultaneousOpen => 2u16,
            TCPType::Unspecified => 0u16,
        },
        CandidateType::PeerReflexive | CandidateType::ServerReflexive => match tcp_type {
            TCPType::SimultaneousOpen => 6u16,
            TCPType::Active => 4u16,
            TCPType::Passive => 2u16,
            TCPType::Unspecified => 0u16,
        },
        CandidateType::Unspecified => 0u16,
    }
}

/// An ICE candidate. `F` is the type of the handler that `close` runs.
#[derive(Debug, Clone)]
pub struct CandidateBase<F> {
    pub id: String,
    pub network_type: NetworkType,
    pub candidate_type: CandidateType,
    pub component: u16,
    pub address: String,
    pub port: u16,
    pub related_address: Option<CandidateRelatedAddress>,
    pub tcp_type: TCPType,
    pub resolved_addr: SocketAddress,
    pub last_sent: Instant,
    pub last_received: Instant,
    pub foundation_override: String,
    pub priority_override: u32,
    /// The network name the candidate was configured with ("udp", "tcp", ...).
    pub network: String,
    pub on_close: Option<F>,
}

/// `priority` can be computed without overflow: a priority is set, or the
/// component is at most 256.
pub open spec fn priority_defined<F>(c: CandidateBase<F>) -> bool {
    c.priority_override != 0 || c.component <= 256
}

impl<F> CandidateBase<F> {
    /// The priority formula of RFC 8445, section 5.1.2.1, unless a priority was set.
    pub open spec fn priority_value(self) -> int {
        if self.priority_override != 0 {
            self.priority_override as int
        } else {
            16777216 * self.candidate_type.preference() + 256 * self.local_preference() + (256
                - self.component)
        }
    }

    /// The bytes whose checksum makes the foundation: the UTF-8 encodings of
    /// the candidate type's name and of the network type's name, one after the other.
    pub open spec fn foundation_input(self) -> Seq<u8> {
        encode_utf8(self.candidate_type.name()) + encode_utf8(self.network_type.name())
    }

    /// The foundation: the one that was set, or else the decimal CRC-32 checksum
    /// of the type names.
    pub open spec fn foundation_text(self) -> Seq<char> {
        if self.foundation_override@.len() != 0 {
            self.foundation_override@
        } else {
            decimal(crc32_checksum(self.foundation_input()) as nat)
        }
    }

    /// The SDP candidate attribute value:
    /// "{foundation} {component} {network} {priority} {address} {port} typ {type}",
    /// then " tcptype {tcp type}" when a TCP type is set, then
    /// " raddr {address} rport {port}" when there is a related address.
    pub open spec fn marshal_text(self) -> Seq<char> {
        let head = self.foundation_text() + seq![' '] + decimal(self.component as nat) + seq![' ']
            + self.network_type.short_name() + seq![' '] + decimal(self.priority_value() as nat)
            + seq![' '] + self.address@ + seq![' '] + decimal(self.port as nat) + seq![
            ' ',
            't',
            'y',
            'p',
            ' ',
        ] + self.candidate_type.name();
        let tcp = if self.tcp_type != TCPType::Unspecified {
            seq![' ', 't', 'c', 'p', 't', 'y', 'p', 'e', ' '] + self.tcp_type.name()
        } else {
            Seq::empty()
        };
        let related = match self.related_address {
            Some(r) => seq![' ', 'r', 'a', 'd', 'd', 'r', ' '] + r.address@ + seq![
                ' ',
                'r',
                'p',
                'o',
                'r',
                't',
                ' ',
            ] + decimal(r.port as nat),
            None => Seq::empty(),
        };
        head + tcp + related
    }

    /// The text that `Display` writes: "{network} {type} {address}:{port}", then
    /// the related address's text when there is one.
    pub open spec fn display_text(self) -> Seq<char> {
        let head = self.network_type.name() + seq![' '] + self.candidate_type.name() + seq![' ']
            + self.address@ + seq![':'] + decimal(self.port as nat);
        match self.related_address {
            Some(r) => head + r.text(),
            None => head,
        }
    }

    /// The candidate after `set_ip(ip)` succeeds: network type from the
    /// configured network name and the family of `ip`, resolved address `ip`
    /// with the candidate's port; `None` when the network name is neither UDP nor TCP.
    pub open spec fn with_ip(self, ip: IpAddress) -> Option<CandidateBase<F>> {
        match network_type_of(self.network@, ip) {
            Some(t) => Some(
                CandidateBase {
                    network_type: t,
                    resolved_addr: SocketAddress { ip, port: self.port },
                    ..self
                },
            ),
            None => None,
        }
    }

    /// The candidate after `close`: without its close handler.
    pub open spec fn closed(self) -> CandidateBase<F> {
        CandidateBase { on_close: None, ..self }
    }

    /// Two candidates are equal when network type, candidate type, address,
    /// port, TCP type and related address agree.
    pub open spec fn equals<G>(self, other: CandidateBase<G>) -> bool {
        &&& self.network_type == other.network_type
        &&& self.candidate_type == other.candidate_type
        &&& self.address@ == other.address@
        &&& self.port == other.port
        &&& self.tcp_type == other.tcp_type
        &&& related_view(self.related_address) == related_view(other.related_address)
    }

    pub fn id(&self) -> (r: String)
        ensures
            r@ == self.id@,
    {
        self.id.clone()
    }

    pub fn component(&self) -> (r: u16)
        ensures
            r == self.component,
    {
        self.component
    }

    pub fn set_component(&mut self, component: u16)
        ensures
            *final(self) == (CandidateBase { component, ..*old(self) }),
    {
        self.component = component;
    }

    pub fn last_received(&self) -> (r: Instant)
        ensures
            r == self.last_received,
    {
        self.last_received
    }

    pub fn last_sent(&self) -> (r: Instant)
        ensures
            r == self.last_sent,
    {
        self.last_sent
    }

    pub fn set_last_received(&mut self, t: Instant)
        ensures
            *final(self) == (CandidateBase { last_received: t, ..*old(self) }),
    {
        self.last_received = t;
    }

    pub fn set_last_sent(&mut self, t: Instant)
        ensures
            *final(self) == (CandidateBase { last_sent: t, ..*old(self) }),
    {
        self.last_sent = t;
    }

    pub fn network_type(&self) -> (r: NetworkType)
        ensures
            r == self.network_type,
    {
        self.network_type
    }

    pub fn address(&self) -> (r: String)
        ensures
            r@ == self.address@,
    {
        self.address.clone()
    }

    pub fn port(&self) -> (r: u16)
        ensures
            r == self.port,
    {
        self.port
    }

    pub fn candidate_type(&self) -> (r: CandidateType)
        ensures
            r == self.candidate_type,
    {
        self.candidate_type
    }

    pub fn tcp_type(&self) -> (r: TCPType)
        ensures
            r == self.tcp_type,
    {
        self.tcp_type
    }

    /// The resolved transport address.
    pub fn addr(&self) -> (r: SocketAddress)
        ensures
            r == self.resolved_addr,
    {
        self.resolved_addr
    }

    /// A copy of the related address, if there is one.
    pub fn related_address(&self) -> (r: Option<CandidateRelatedAddress>)
        ensures
            related_view(r) == related_view(self.related_address),
    {
        match &self.related_address {
            Some(related_address) => Some(related_address.copy()),
            None => None,
        }
    }

    /// The local preference: 65535 for candidates that are not TCP; for TCP
    /// ones (RFC 6544, section 4.2) 2^13 times the direction preference plus 8191.
    #[verifier::allow_in_spec]
    pub fn local_preference(&self) -> u16
        returns
            (if self.network_type.is_tcp() {
                (8192 * direction_preference(self.candidate_type, self.tcp_type) + 8191) as u16
            } else {
                DEFAULT_LOCAL_PREFERENCE
            }),
    {
        if self.network_type().is_tcp() {
            let other_pref: u16 = 8191;
            let direction_pref: u16 = match self.candidate_type() {
                CandidateType::Host | CandidateType::Relay => match self.tcp_type() {
                    TCPType::Active => 6,
                    TCPType::Passive => 4,
                    TCPType::SimultaneousOpen => 2,
                    TCPType::Unspecified => 0,
                },
                CandidateType::PeerReflexive | CandidateType::ServerReflexive => {
                    match self.tcp_type() {
                        TCPType::SimultaneousOpen => 6,
                        TCPType::Active => 4,
                        TCPType::Passive => 2,
                        TCPType::Unspecified => 0,
                    }
                },
                CandidateType::Unspecified => 0,
            };
            8192 * direction_pref + other_pref
        } else {
            DEFAULT_LOCAL_PREFERENCE
        }
    }

    /// The priority that was set, or else the formula of RFC 8445, section
    /// 5.1.2.1: 2^24 times the type preference, plus 2^8 times the local
    /// preference, plus 256 minus the component.
    pub fn priority(&self) -> (p: u32)
        requires
            priority_defined(*self),
        ensures
            p == self.priority_value(),
            self.priority_override != 0 ==> p == self.priority_override,
            self.priority_override == 0 ==> p == 16777216 * self.candidate_type.preference() + 256
                * self.local_preference() + (256 - self.component),
    {
        if self.priority_override != 0 {
            return self.priority_override;
        }
        16777216 * (self.candidate_type().preference() as u32) + 256 * (
        self.local_preference() as u32) + (256 - self.component() as u32)
    }

    /// The foundation that was set, or else the decimal CRC-32 checksum of the
    /// candidate type's and network type's names.
    pub fn foundation(&self) -> (f: String)
        ensures
            f@ == self.foundation_text(),
            self.foundation_override@.len() != 0 ==> f@ == self.foundation_override@,
            self.foundation_override@.len() == 0 ==> f@ == decimal(
                crc32_checksum(
                    encode_utf8(self.candidate_type.name()) + encode_utf8(self.network_type.name()),
                ) as nat,
            ),
    {
        proof {
            reveal_strlit("");
        }
        if self.foundation_override.as_str().unicode_len() != 0 {
            return self.foundation_override.clone();
        }
        let mut buf: Vec<u8> = Vec::new();
        let ct = self.candidate_type().to_string();
        let nt = self.network_type().to_string();
        buf.extend_from_slice(ct.as_str().as_bytes());
        buf.extend_from_slice(nt.as_str().as_bytes());
        assert(buf@ =~= self.foundation_input());
        let checksum = crc32(buf.as_slice());
        decimal_string(checksum)
    }
}


impl<F> CandidateBase<F> {
    /// The text that `Display` writes for the candidate.
    pub fn to_string(&self) -> (s: String)
        ensures
            s@ == self.display_text(),
    {
        proof {
            reveal_strlit(" ");
            reveal_strlit(":");
        }
        let mut s = self.network_type().to_string();
        s.append(" ");
        s.append(self.candidate_type().to_string().as_str());
        s.append(" ");
        s.append(self.address().as_str());
        s.append(":");
        s.append(decimal_string(self.port() as u32).as_str());
        if let Some(related_address) = self.related_address() {
            s.append(related_address.to_string().as_str());
        }
        s
    }

    /// The candidate as an SDP "candidate" attribute value.
    pub fn marshal(&self) -> (s: String)
        requires
            priority_defined(*self),
        ensures
            s@ == self.marshal_text(),
    {
        proof {
            reveal_strlit(" ");
            reveal_strlit(" typ ");
            reveal_strlit(" tcptype ");
            reveal_strlit(" raddr ");
            reveal_strlit(" rport ");
        }
        let mut val = self.foundation();
        val.append(" ");
        val.append(decimal_string(self.component() as u32).as_str());
        val.append(" ");
        val.append(self.network_type().network_short().as_str());
        val.append(" ");
        val.append(decimal_string(self.priority()).as_str());
        val.append(" ");
        val.append(self.address().as_str());
        val.append(" ");
        val.append(decimal_string(self.port() as u32).as_str());
        val.append(" typ ");
        val.append(self.candidate_type().to_string().as_str());
        let ghost head = val@;
        if self.tcp_type != TCPType::Unspecified {
            val.append(" tcptype ");
            val.append(self.tcp_type().to_string().as_str());
        }
        let ghost with_tcp = val@;
        if let Some(related_address) = self.related_address() {
            val.append(" raddr ");
            val.append(related_address.address.as_str());
            val.append(" rport ");
            val.append(decimal_string(related_address.port as u32).as_str());
        }
        assert(val@ =~= self.marshal_text());
        val
    }

    /// Whether `other` has the same network type, candidate type, address,
    /// port, TCP type and related address.
    pub fn equal<G>(&self, other: &CandidateBase<G>) -> (r: bool)
        ensures
            r == self.equals(*other),
            r == (self.network_type == other.network_type && self.candidate_type
                == other.candidate_type && self.address@ == other.address@ && self.port
                == other.port && self.tcp_type == other.tcp_type && related_view(
                self.related_address,
            ) == related_view(other.related_address)),
    {
        let related_equal = match (self.related_address(), other.related_address()) {
            (Some(a), Some(b)) => a.address == b.address && a.port == b.port,
            (None, None) => true,
            _ => false,
        };
        self.network_type() == other.network_type() && self.candidate_type()
            == other.candidate_type() && self.address() == other.address() && self.port()
            == other.port() && self.tcp_type() == other.tcp_type() && related_equal
    }

    /// Sets the network type from the configured network name and the family of
    /// `ip`, and the resolved address to `ip` with the candidate's port.
    pub fn set_ip(&mut self, ip: &IpAddress) -> (r: Result<(), Error>)
        ensures
            match old(self).with_ip(*ip) {
                Some(c) => r == Ok::<(), Error>(()) && *final(self) == c,
                None => r == Err::<(), Error>(Error::ErrDetermineNetworkType) && *final(self)
                    == *old(self),
            },
            (r is Ok) == (network_type_of(old(self).network@, *ip) is Some),
            network_type_of(old(self).network@, *ip) matches Some(t) ==> {
                &&& final(self).network_type == t
                &&& final(self).resolved_addr == (SocketAddress { ip: *ip, port: old(self).port })
            },
    {
        let network_type = match determine_network_type(self.network.as_str(), ip) {
            Ok(t) => t,
            Err(e) => return Err(e),
        };
        self.network_type = network_type;
        self.resolved_addr = create_addr(network_type, *ip, self.port);
        Ok(())
    }

    /// Records that the candidate was just used: outbound sets the time last
    /// sent, inbound the time last received, to the clock's reading.
    pub fn seen(&mut self, outbound: bool)
        ensures
            outbound ==> *final(self) == (CandidateBase {
                last_sent: final(self).last_sent,
                ..*old(self)
            }),
            !outbound ==> *final(self) == (CandidateBase {
                last_received: final(self).last_received,
                ..*old(self)
            }),
    {
        if outbound {
            self.set_last_sent(instant_now())
        } else {
            self.set_last_received(instant_now())
        }
    }

    /// Sends nothing yet: marks the candidate as seen outbound and reports 0
    /// bytes written.
    pub fn write_to<G>(&mut self, raw: &[u8], dst: &CandidateBase<G>) -> (r: Result<usize, Error>)
        ensures
            r == Ok::<usize, Error>(0),
            *final(self) == (CandidateBase { last_sent: final(self).last_sent, ..*old(self) }),
    {
        let n: usize = 0;
        self.seen(true);
        Ok(n)
    }
}

impl<F: Fn() -> Result<(), Error>> CandidateBase<F> {
    /// Runs the close handler, if there is one, and drops it; returns what the
    /// handler returned, or `Ok` when there was none.
    pub fn close(&mut self) -> (r: Result<(), Error>)
        requires
            old(self).on_close matches Some(f) ==> call_requires(f, ()),
        ensures
            *final(self) == old(self).closed(),
            old(self).on_close matches Some(f) ==> call_ensures(f, (), r),
            old(self).on_close is None ==> r == Ok::<(), Error>(()),
    {
        let result = match self.on_close.take() {
            Some(on_close) => on_close(),
            None => Ok(()),
        };
        result
    }
}

impl<F> Default for CandidateBase<F> {
    fn default() -> (c: Self)
        ensures
            c.id@ == Seq::<char>::empty(),
            c.network_type == NetworkType::Unspecified,
            c.candidate_type == CandidateType::Unspecified,
            c.component == 0,
            c.address@ == Seq::<char>::empty(),
            c.port == 0,
            c.related_address is None,
            c.tcp_type == TCPType::Unspecified,
            c.resolved_addr == (SocketAddress { ip: IpAddress::V4(0), port: 0 }),
            c.foundation_override@ == Seq::<char>::empty(),
            c.priority_override == 0,
            c.network@ == Seq::<char>::empty(),
            c.on_close is None,
    {
        CandidateBase {
            id: String::new(),
            network_type: NetworkType::Unspecified,
            candidate_type: CandidateType::Unspecified,
            component: 0,
            address: String::new(),
            port: 0,
            related_address: None,
            tcp_type: TCPType::Unspecified,
            resolved_addr: SocketAddress { ip: IpAddress::V4(0), port: 0 },
            last_sent: instant_now(),
            last_received: instant_now(),
            foundation_override: String::new(),
            priority_override: 0,
            network: String::new(),
            on_close: None,
        }
    }
}

/// Of two candidates whose priority is computed (none was set, components at
/// most 256), the one whose candidate type has the higher type preference has
/// the higher priority, whatever their local preferences and components.
pub proof fn lemma_type_preference_dominates_priority<F, G>(a: CandidateBase<F>, b: CandidateBase<G>)
    requires
        a.priority_override == 0,
        b.priority_override == 0,
        a.component <= 256,
        b.component <= 256,
        a.candidate_type.preference() > b.candidate_type.preference(),
    ensures
        a.priority_value() > b.priority_value(),
{
    assert(a.local_preference() >= 8191);
}

/// `equal` is reflexive: every candidate equals itself.
pub proof fn lemma_equal_reflexive<F>(a: CandidateBase<F>)
    ensures
        a.equals(a),
{
}

/// `equal` is symmetric.
pub proof fn lemma_equal_symmetric<F, G>(a: CandidateBase<F>, b: CandidateBase<G>)
    ensures
        a.equals(b) == b.equals(a),
{
}

/// `equal` is transitive.
pub proof fn lemma_equal_transitive<F, G, H>(
    a: CandidateBase<F>,
    b: CandidateBase<G>,
    c: CandidateBase<H>,
)
    requires
        a.equals(b),
        b.equals(c),
    ensures
        a.equals(c),
{
}

/// Equal candidates are printed alike by `to_string`.
pub proof fn lemma_equal_candidates_display_alike<F, G>(a: CandidateBase<F>, b: CandidateBase<G>)
    requires
        a.equals(b),
    ensures
        a.display_text() == b.display_text(),
{
    match (a.related_address, b.related_address) {
        (Some(ra), Some(rb)) => {
            assert(ra@ == rb@);
            assert(ra.text() == rb.text());
        },
        _ => {},
    }
}

/// Equal candidates without a set foundation have the same foundation: it
/// depends on the candidate type and the network type alone.
pub proof fn lemma_equal_candidates_share_foundation<F, G>(a: CandidateBase<F>, b: CandidateBase<G>)
    requires
        a.equals(b),
        a.foundation_override@.len() == 0,
        b.foundation_override@.len() == 0,
    ensures
        a.foundation_text() == b.foundation_text(),
{
}

/// Closing a second time changes nothing: the handler is gone after the first.
pub proof fn lemma_close_is_idempotent<F>(c: CandidateBase<F>)
    ensures
        c.closed().on_close is None,
        c.closed().closed() == c.closed(),
{
}

/// A successful `set_ip` gives a network type of the address's family, the
/// resolved address `ip` with the candidate's port, and setting the same
/// address again changes nothing.
pub proof fn lemma_set_ip_is_idempotent<F>(c: CandidateBase<F>, ip: IpAddress)
    requires
        c.with_ip(ip) is Some,
    ensures
        c.with_ip(ip).unwrap().resolved_addr == (SocketAddress { ip, port: c.port }),
        (c.with_ip(ip).unwrap().network_type == NetworkType::Udp4 || c.with_ip(ip).unwrap().network_type
            == NetworkType::Tcp4) == (ip is V4),
        c.with_ip(ip).unwrap().with_ip(ip) == c.with_ip(ip),
{
}

/// The TCP type and candidate type fix the local preference of a TCP
/// candidate (RFC 6544, section 4.2): 2^13 times the direction preference
/// (host and relayed: active 6, passive 4, simultaneous-open 2; reflexive:
/// simultaneous-open 6, active 4, passive 2; otherwise 0) plus 8191. A
/// candidate that is not TCP has local preference 65535.
pub proof fn lemma_local_preference_table<F>(c: CandidateBase<F>)
    ensures
        !(c.network_type == NetworkType::Tcp4 || c.network_type == NetworkType::Tcp6)
            ==> c.local_preference() == 65535,
        (c.network_type == NetworkType::Tcp4 || c.network_type == NetworkType::Tcp6) ==> {
            let host_like = c.candidate_type == CandidateType::Host || c.candidate_type
                == CandidateType::Relay;
            let reflexive = c.candidate_type == CandidateType::ServerReflexive
                || c.candidate_type == CandidateType::PeerReflexive;
            &&& (host_like && c.tcp_type == TCPType::Active) ==> c.local_preference() == 57343
            &&& (host_like && c.tcp_type == TCPType::Passive) ==> c.local_preference() == 40959
            &&& (host_like && c.tcp_type == TCPType::SimultaneousOpen) ==> c.local_preference()
                == 24575
            &&& (reflexive && c.tcp_type == TCPType::SimultaneousOpen) ==> c.local_preference()
                == 57343
            &&& (reflexive && c.tcp_type == TCPType::Active) ==> c.local_preference() == 40959
            &&& (reflexive && c.tcp_type == TCPType::Passive) ==> c.local_preference() == 24575
            &&& (c.tcp_type == TCPType::Unspecified || c.candidate_type
                == CandidateType::Unspecified) ==> c.local_preference() == 8191
        },
{
}

/// A computed priority is made of the candidate's type preference, its local
/// preference and its component: 2^24 * type preference + 2^8 * local
/// preference + (256 - component); a set priority is returned as it is.
pub proof fn lemma_priority_formula<F>(c: CandidateBase<F>)
    ensures
        c.priority_override != 0 ==> c.priority_value() == c.priority_override,
        c.priority_override == 0 ==> c.priority_value() == 16777216
            * c.candidate_type.preference() + 256 * c.local_preference() + (256 - c.component),
{
}

/// Two candidates without a set priority that differ only in their local
/// preference are ordered by it.
pub proof fn lemma_priority_follows_local_preference<F, G>(a: CandidateBase<F>, b: CandidateBase<G>)
    requires
        a.priority_override == 0,
        b.priority_override == 0,
        a.candidate_type == b.candidate_type,
        a.component == b.component,
        a.local_preference() < b.local_preference(),
    ensures
        a.priority_value() < b.priority_value(),
{
}

/// A set foundation is the foundation, whatever the candidate's types.
pub proof fn lemma_foundation_override<F>(c: CandidateBase<F>)
    requires
        c.foundation_override@.len() != 0,
    ensures
        c.foundation_text() == c.foundation_override@,
{
}

/// Without a set foundation, the foundation is the decimal text of the CRC-32
/// checksum of the UTF-8 names of the candidate type and the network type.
pub proof fn lemma_foundation_checksum<F>(c: CandidateBase<F>)
    requires
        c.foundation_override@.len() == 0,
    ensures
        c.foundation_text() == decimal(
            crc32_checksum(encode_utf8(c.candidate_type.name()) + encode_utf8(c.network_type.name()))
                as nat,
        ),
{
}

/// Equal candidates agree on each identity field, and candidates that agree on
/// all of them are equal.
pub proof fn lemma_equal_iff_same_identity<F, G>(a: CandidateBase<F>, b: CandidateBase<G>)
    ensures
        a.equals(b) ==> {
            &&& a.network_type == b.network_type
            &&& a.candidate_type == b.candidate_type
            &&& a.address@ == b.address@
            &&& a.port == b.port
            &&& a.tcp_type == b.tcp_type
            &&& a.related_address is Some == b.related_address is Some
            &&& (a.related_address matches Some(ra) ==> b.related_address matches Some(rb)
                && ra.address@ == rb.address@ && ra.port == rb.port)
        },
        (a.network_type == b.network_type && a.candidate_type == b.candidate_type && a.address@
            == b.address@ && a.port == b.port && a.tcp_type == b.tcp_type && related_view(
            a.related_address,
        ) == related_view(b.related_address)) ==> a.equals(b),
{
    if a.equals(b) {
        if let (Some(ra), Some(rb)) = (a.related_address, b.related_address) {
            assert(ra@ == rb@);
        }
    }
}

/// `s` holds `part` at position `i`.
pub open spec fn holds_at(s: Seq<char>, part: Seq<char>, i: int) -> bool {
    0 <= i && i + part.len() <= s.len() && s.subrange(i, i + part.len()) == part
}

/// The SDP line of a candidate begins with its foundation and a space, and
/// ends with " typ {type}", followed by " tcptype {tcp type}" whenever a TCP
/// type is set, followed by " raddr {address} rport {port}" whenever there is a
/// related address.
pub proof fn lemma_marshal_layout<F>(c: CandidateBase<F>)
    ensures
        ({
            let m = c.marshal_text();
            let typ = seq![' ', 't', 'y', 'p', ' '] + c.candidate_type.name();
            let tcp = if c.tcp_type != TCPType::Unspecified {
                seq![' ', 't', 'c', 'p', 't', 'y', 'p', 'e', ' '] + c.tcp_type.name()
            } else {
                Seq::<char>::empty()
            };
            let related = match c.related_address {
                Some(r) => seq![' ', 'r', 'a', 'd', 'd', 'r', ' '] + r.address@ + seq![
                    ' ',
                    'r',
                    'p',
                    'o',
                    'r',
                    't',
                    ' ',
                ] + decimal(r.port as nat),
                None => Seq::<char>::empty(),
            };
            let tail = typ + tcp + related;
            let head = c.foundation_text() + seq![' '];
            &&& holds_at(m, head, 0)
            &&& holds_at(m, tail, m.len() - tail.len())
        }),
{
    let m = c.marshal_text();
    let typ = seq![' ', 't', 'y', 'p', ' '] + c.candidate_type.name();
    let tcp = if c.tcp_type != TCPType::Unspecified {
        seq![' ', 't', 'c', 'p', 't', 'y', 'p', 'e', ' '] + c.tcp_type.name()
    } else {
        Seq::<char>::empty()
    };
    let related = match c.related_address {
        Some(r) => seq![' ', 'r', 'a', 'd', 'd', 'r', ' '] + r.address@ + seq![
            ' ',
            'r',
            'p',
            'o',
            'r',
            't',
            ' ',
        ] + decimal(r.port as nat),
        None => Seq::<char>::empty(),
    };
    let tail = typ + tcp + related;
    let head = c.foundation_text() + seq![' '];
    assert(m.subrange(0, head.len() as int) =~= head);
    assert(m.subrange(m.len() - tail.len(), m.len() as int) =~= tail);
}

/// `set_ip` succeeds exactly when the network name is UDP or TCP (any case);
/// then the network type is of that transport and of the address's family, and
/// the resolved address is the address with the candidate's port.
pub proof fn lemma_set_ip_outcome<F>(c: CandidateBase<F>, ip: IpAddress)
    ensures
        ({
            let udp = starts_with_ignore_case(c.network@, seq!['u', 'd', 'p']);
            let tcp = starts_with_ignore_case(c.network@, seq!['t', 'c', 'p']);
            &&& (c.with_ip(ip) is Some) == (udp || tcp)
            &&& c.with_ip(ip) matches Some(d) ==> {
                &&& d.resolved_addr == (SocketAddress { ip, port: c.port })
                &&& udp ==> d.network_type == (if ip is V4 {
                    NetworkType::Udp4
                } else {
                    NetworkType::Udp6
                })
                &&& !udp ==> d.network_type == (if ip is V4 {
                    NetworkType::Tcp4
                } else {
                    NetworkType::Tcp6
                })
                &&& d.id == c.id && d.address == c.address && d.port == c.port && d.network
                    == c.network && d.candidate_type == c.candidate_type
            }
        }),
{
}

} // verus!
