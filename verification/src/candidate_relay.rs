use vstd::prelude::*;
use crate::address::{create_addr, IpAddress, SocketAddress};
use crate::candidate_base::{CandidateBase, CandidateBaseConfig, CandidateRelatedAddress};
use crate::candidate_type::CandidateType;
use crate::tcp_type::TCPType;
use crate::decimal::decimal;
use crate::error::Error;
use crate::network_type::{determine_network_type, network_type_of, NetworkType};

verus! {

/// The configuration of a relayed candidate. `F` is the type of the handler
/// that `close` runs.
pub struct CandidateRelayConfig<F> {
    pub base_config: CandidateBaseConfig,
    pub rel_addr: String,
    pub rel_port: u16,
    pub on_close: Option<F>,
}

/// `c` is the relayed candidate that `config` describes, on network type `t`
/// at `ip`; the fields that `config` does not give keep their defaults.
pub open spec fn is_relay_candidate<F>(
    c: CandidateBase<F>,
    config: CandidateRelayConfig<F>,
    ip: IpAddress,
    t: NetworkType,
) -> bool {
    &&& c.id@ == config.base_config.candidate_id@
    &&& c.network_type == t
    &&& c.candidate_type == CandidateType::Relay
    &&& c.address@ == config.base_config.address@
    &&& c.port == config.base_config.port
    &&& c.resolved_addr == (SocketAddress { ip, port: config.base_config.port })
    &&& c.component == config.base_config.component
    &&& c.foundation_override@ == config.base_config.foundation@
    &&& c.priority_override == config.base_config.priority
    &&& c.related_address matches Some(r) && r@ == (config.rel_addr@, config.rel_port)
    &&& c.on_close == config.on_close
    &&& c.tcp_type == TCPType::Unspecified
    &&& c.network@ == Seq::<char>::empty()
}

/// Creates a relayed candidate. `address_ip` is what parsing
/// `config.base_config.address` as an IP address gave (`None` when it is not
/// one).
pub fn new_candidate_relay<F>(config: CandidateRelayConfig<F>, address_ip: Option<IpAddress>) -> (r:
    Result<CandidateBase<F>, Error>)
    ensures
        match address_ip {
            None => r == Err::<CandidateBase<F>, Error>(Error::ErrAddressParseFailed),
            Some(ip) => match network_type_of(config.base_config.network@, ip) {
                None => r == Err::<CandidateBase<F>, Error>(Error::ErrDetermineNetworkType),
                Some(t) => r matches Ok(c) && is_relay_candidate(c, config, ip, t),
            },
        },
{
    let candidate_id = config.base_config.candidate_id;
    let ip: IpAddress = match address_ip {
        Some(ip) => ip,
        None => return Err(Error::ErrAddressParseFailed),
    };
    let network_type = match determine_network_type(config.base_config.network.as_str(), &ip) {
        Ok(t) => t,
        Err(e) => return Err(e),
    };
    let mut c: CandidateBase<F> = CandidateBase::default();
    c.id = candidate_id;
    c.network_type = network_type;
    c.candidate_type = CandidateType::Relay;
    c.address = config.base_config.address;
    c.port = config.base_config.port;
    c.resolved_addr = create_addr(network_type, ip, config.base_config.port);
    c.component = config.base_config.component;
    c.foundation_override = config.base_config.foundation;
    c.priority_override = config.base_config.priority;
    c.related_address = Some(CandidateRelatedAddress { address: config.rel_addr, port: config.rel_port });
    c.on_close = config.on_close;
    Ok(c)
}

/// The SDP text of a relayed candidate's related address:
/// " raddr {address} rport {port}".
pub open spec fn related_address_text(address: Seq<char>, port: u16) -> Seq<char> {
    seq![' ', 'r', 'a', 'd', 'd', 'r', ' '] + address + seq![' ', 'r', 'p', 'o', 'r', 't', ' ']
        + decimal(port as nat)
}

/// A relayed candidate made by `new_candidate_relay` has the configured
/// priority and foundation when they are set; otherwise, on UDP, its priority
/// is that of type preference 0 and local preference 65535. Its SDP line ends
/// with its related address " raddr {rel_addr} rport {rel_port}".
pub proof fn lemma_relay_candidate<F>(
    c: CandidateBase<F>,
    config: CandidateRelayConfig<F>,
    ip: IpAddress,
    t: NetworkType,
)
    requires
        is_relay_candidate(c, config, ip, t),
    ensures
        config.base_config.priority != 0 ==> c.priority_value() == config.base_config.priority,
        config.base_config.priority == 0 && t.is_udp() ==> c.priority_value() == 256 * 65535 + 256
            - config.base_config.component,
        config.base_config.foundation@.len() != 0 ==> c.foundation_text()
            == config.base_config.foundation@,
        ({
            let m = c.marshal_text();
            let suffix = related_address_text(config.rel_addr@, config.rel_port);
            suffix.len() <= m.len() && m.subrange(m.len() - suffix.len(), m.len() as int) == suffix
        }),
{
    let m = c.marshal_text();
    let suffix = related_address_text(config.rel_addr@, config.rel_port);
    let r = c.related_address.unwrap();
    assert(r.address@ == config.rel_addr@);
    assert(m.subrange(m.len() - suffix.len(), m.len() as int) =~= suffix);
}

} // verus!
