use webrtc_ice::address::{create_addr, IpAddress, SocketAddress};
use webrtc_ice::candidate_base::{
    CandidateBase, CandidateBaseConfig, CandidateRelatedAddress, DEFAULT_LOCAL_PREFERENCE,
};
use webrtc_ice::candidate_relay::{new_candidate_relay, CandidateRelayConfig};
use webrtc_ice::candidate_type::CandidateType;
use webrtc_ice::tcp_type::TCPType;
use webrtc_ice::decimal::decimal_string;
use webrtc_ice::error::Error;
use webrtc_ice::network_type::{determine_network_type, NetworkType};

type OnClose = fn() -> Result<(), Error>;

fn ip(text: &str) -> IpAddress {
    match text {
        "10.0.0.1" => IpAddress::V4(0x0a00_0001),
        "1.2.3.4" => IpAddress::V4(0x0102_0304),
        "5.6.7.8" => IpAddress::V4(0x0506_0708),
        "8.8.8.8" => IpAddress::V4(0x0808_0808),
        "::1" => IpAddress::V6(1),
        "::2" => IpAddress::V6(2),
        _ => panic!("no such address in these tests"),
    }
}

/// Waits until the clock has moved on.
fn tick() {
    let t = std::time::Instant::now();
    while std::time::Instant::now() == t {}
}

fn candidate(nt: NetworkType, ct: CandidateType, tcp: TCPType) -> CandidateBase<OnClose> {
    let mut c: CandidateBase<OnClose> = CandidateBase::default();
    c.network_type = nt;
    c.candidate_type = ct;
    c.tcp_type = tcp;
    c.address = "192.168.0.1".to_string();
    c.port = 5000;
    c.component = 1;
    c
}

fn relay_config(
    network: &str,
    address: &str,
    priority: u32,
    foundation: &str,
    on_close: Option<OnClose>,
) -> CandidateRelayConfig<OnClose> {
    CandidateRelayConfig {
        base_config: CandidateBaseConfig {
            candidate_id: "id1".to_string(),
            network: network.to_string(),
            address: address.to_string(),
            port: 5000,
            component: 1,
            priority,
            foundation: foundation.to_string(),
        },
        rel_addr: "4.3.2.1".to_string(),
        rel_port: 43210,
        on_close,
    }
}

fn close_ok() -> Result<(), Error> {
    Ok(())
}

fn close_err() -> Result<(), Error> {
    Err(Error::Other("refused".to_string()))
}

#[test]
fn decimal_string_writes_digits() {
    assert_eq!(decimal_string(0), "0");
    assert_eq!(decimal_string(7), "7");
    assert_eq!(decimal_string(10), "10");
    assert_eq!(decimal_string(2130706431), "2130706431");
    assert_eq!(decimal_string(u32::MAX), "4294967295");
}

#[test]
fn type_names() {
    assert_eq!(NetworkType::Udp4.to_string(), "udp4");
    assert_eq!(NetworkType::Udp6.to_string(), "udp6");
    assert_eq!(NetworkType::Tcp4.to_string(), "tcp4");
    assert_eq!(NetworkType::Tcp6.to_string(), "tcp6");
    assert_eq!(NetworkType::Unspecified.to_string(), "unspecified");
    assert_eq!(NetworkType::Udp6.network_short(), "udp");
    assert_eq!(NetworkType::Tcp4.network_short(), "tcp");
    assert_eq!(NetworkType::Unspecified.network_short(), "Unspecified");
    assert_eq!(CandidateType::Host.to_string(), "host");
    assert_eq!(CandidateType::ServerReflexive.to_string(), "srflx");
    assert_eq!(CandidateType::PeerReflexive.to_string(), "prflx");
    assert_eq!(CandidateType::Relay.to_string(), "relay");
    assert_eq!(CandidateType::Unspecified.to_string(), "Unknown candidate type");
    assert_eq!(TCPType::Active.to_string(), "active");
    assert_eq!(TCPType::Passive.to_string(), "passive");
    assert_eq!(TCPType::SimultaneousOpen.to_string(), "so");
    assert_eq!(TCPType::Unspecified.to_string(), "unspecified");
}

#[test]
fn type_preferences() {
    assert_eq!(CandidateType::Host.preference(), 126);
    assert_eq!(CandidateType::PeerReflexive.preference(), 110);
    assert_eq!(CandidateType::ServerReflexive.preference(), 100);
    assert_eq!(CandidateType::Relay.preference(), 0);
    assert_eq!(CandidateType::Unspecified.preference(), 0);
    assert!(NetworkType::Tcp6.is_tcp() && !NetworkType::Tcp6.is_udp());
    assert!(NetworkType::Udp4.is_udp() && !NetworkType::Udp4.is_tcp());
    assert!(!NetworkType::Unspecified.is_udp() && !NetworkType::Unspecified.is_tcp());
}

#[test]
fn network_type_from_name_and_family() {
    let v4 = ip("10.0.0.1");
    let v6 = ip("::1");
    assert_eq!(determine_network_type("udp", &v4), Ok(NetworkType::Udp4));
    assert_eq!(determine_network_type("udp", &v6), Ok(NetworkType::Udp6));
    assert_eq!(determine_network_type("tcp4", &v4), Ok(NetworkType::Tcp4));
    assert_eq!(determine_network_type("TCP", &v6), Ok(NetworkType::Tcp6));
    assert_eq!(determine_network_type("UdP6", &v4), Ok(NetworkType::Udp4));
    assert_eq!(determine_network_type("ud", &v4), Err(Error::ErrDetermineNetworkType));
    assert_eq!(determine_network_type("", &v4), Err(Error::ErrDetermineNetworkType));
    assert_eq!(determine_network_type("sctp", &v4), Err(Error::ErrDetermineNetworkType));
    assert_eq!(determine_network_type(" udp", &v4), Err(Error::ErrDetermineNetworkType));
}

#[test]
fn local_preference_of_udp_is_default() {
    let c = candidate(NetworkType::Udp4, CandidateType::Host, TCPType::Active);
    assert_eq!(c.local_preference(), DEFAULT_LOCAL_PREFERENCE);
    assert_eq!(c.local_preference(), 65535);
}

#[test]
fn local_preference_of_tcp_follows_direction() {
    let pref = |ct, tcp| candidate(NetworkType::Tcp4, ct, tcp).local_preference();
    assert_eq!(pref(CandidateType::Host, TCPType::Active), 6 * 8192 + 8191);
    assert_eq!(pref(CandidateType::Host, TCPType::Passive), 4 * 8192 + 8191);
    assert_eq!(pref(CandidateType::Relay, TCPType::SimultaneousOpen), 2 * 8192 + 8191);
    assert_eq!(pref(CandidateType::Host, TCPType::Unspecified), 8191);
    assert_eq!(pref(CandidateType::ServerReflexive, TCPType::SimultaneousOpen), 6 * 8192 + 8191);
    assert_eq!(pref(CandidateType::PeerReflexive, TCPType::Active), 4 * 8192 + 8191);
    assert_eq!(pref(CandidateType::ServerReflexive, TCPType::Passive), 2 * 8192 + 8191);
    assert_eq!(pref(CandidateType::Unspecified, TCPType::Active), 8191);
}

#[test]
fn priority_formula() {
    let c = candidate(NetworkType::Udp4, CandidateType::Host, TCPType::Unspecified);
    assert_eq!(c.priority(), 2130706431);
    let mut s = candidate(NetworkType::Udp4, CandidateType::ServerReflexive, TCPType::Unspecified);
    s.component = 2;
    assert_eq!(s.priority(), 100 * 16777216 + 256 * 65535 + 254);
    let mut t = candidate(NetworkType::Tcp4, CandidateType::Host, TCPType::Active);
    t.component = 256;
    assert_eq!(t.priority(), 126 * 16777216 + 256 * (6 * 8192 + 8191));
}

#[test]
fn priority_override_wins() {
    let mut c = candidate(NetworkType::Udp4, CandidateType::Host, TCPType::Unspecified);
    c.priority_override = 42;
    c.component = 1000;
    assert_eq!(c.priority(), 42);
}

#[test]
fn type_preference_dominates_priority() {
    let mut host = candidate(NetworkType::Tcp4, CandidateType::Host, TCPType::Unspecified);
    host.component = 256;
    let mut prflx = candidate(NetworkType::Udp4, CandidateType::PeerReflexive, TCPType::Unspecified);
    prflx.component = 0;
    let mut srflx = candidate(NetworkType::Udp4, CandidateType::ServerReflexive, TCPType::Unspecified);
    srflx.component = 0;
    let mut relay = candidate(NetworkType::Udp4, CandidateType::Relay, TCPType::Unspecified);
    relay.component = 0;
    assert!(host.priority() > prflx.priority());
    assert!(prflx.priority() > srflx.priority());
    assert!(srflx.priority() > relay.priority());
}

#[test]
fn foundation_is_checksum_of_type_names() {
    let c = candidate(NetworkType::Udp4, CandidateType::Host, TCPType::Unspecified);
    assert_eq!(c.foundation(), "2273500954");
    let c = candidate(NetworkType::Udp6, CandidateType::ServerReflexive, TCPType::Unspecified);
    assert_eq!(c.foundation(), "1813692318");
    let c = candidate(NetworkType::Tcp6, CandidateType::PeerReflexive, TCPType::Active);
    assert_eq!(c.foundation(), "3898929851");
    let c: CandidateBase<OnClose> = CandidateBase::default();
    assert_eq!(c.foundation(), "3815702291");
}

#[test]
fn foundation_override_wins() {
    let mut c = candidate(NetworkType::Udp4, CandidateType::Host, TCPType::Unspecified);
    c.foundation_override = "abc".to_string();
    assert_eq!(c.foundation(), "abc");
}

#[test]
fn equal_candidates_share_foundation() {
    let a = candidate(NetworkType::Udp4, CandidateType::Host, TCPType::Unspecified);
    let mut b = candidate(NetworkType::Udp4, CandidateType::Host, TCPType::Unspecified);
    b.component = 2;
    assert!(a.equal(&b));
    assert_eq!(a.foundation(), b.foundation());
}

#[test]
fn marshal_host_candidate() {
    let c = candidate(NetworkType::Udp4, CandidateType::Host, TCPType::Unspecified);
    assert_eq!(c.marshal(), "2273500954 1 udp 2130706431 192.168.0.1 5000 typ host");
}

#[test]
fn marshal_tcp_candidate_has_tcptype() {
    let mut c = candidate(NetworkType::Tcp4, CandidateType::Host, TCPType::Passive);
    c.foundation_override = "f".to_string();
    c.priority_override = 7;
    assert_eq!(c.marshal(), "f 1 tcp 7 192.168.0.1 5000 typ host tcptype passive");
}

#[test]
fn marshal_with_related_address() {
    let mut c = candidate(NetworkType::Udp6, CandidateType::ServerReflexive, TCPType::Unspecified);
    c.foundation_override = "x".to_string();
    c.related_address = Some(CandidateRelatedAddress { address: "10.0.0.2".to_string(), port: 9 });
    assert_eq!(
        c.marshal(),
        "x 1 udp 1694498815 192.168.0.1 5000 typ srflx raddr 10.0.0.2 rport 9"
    );
}

#[test]
fn display_text() {
    let mut c = candidate(NetworkType::Udp4, CandidateType::Host, TCPType::Unspecified);
    assert_eq!(c.to_string(), "udp4 host 192.168.0.1:5000");
    c.related_address = Some(CandidateRelatedAddress { address: "1.1.1.1".to_string(), port: 80 });
    assert_eq!(c.to_string(), "udp4 host 192.168.0.1:5000 related 1.1.1.1:80");
    let r = CandidateRelatedAddress { address: "a".to_string(), port: 0 };
    assert_eq!(r.to_string(), " related a:0");
}

#[test]
fn equal_compares_identity_fields() {
    let a = candidate(NetworkType::Udp4, CandidateType::Host, TCPType::Unspecified);
    let mut b = candidate(NetworkType::Udp4, CandidateType::Host, TCPType::Unspecified);
    b.foundation_override = "other".to_string();
    b.priority_override = 5;
    b.id = "x".to_string();
    assert!(a.equal(&b) && b.equal(&a) && a.equal(&a));
    let mut c = candidate(NetworkType::Udp4, CandidateType::Host, TCPType::Unspecified);
    c.port = 5001;
    assert!(!a.equal(&c));
    let d = candidate(NetworkType::Udp6, CandidateType::Host, TCPType::Unspecified);
    assert!(!a.equal(&d));
    let e = candidate(NetworkType::Udp4, CandidateType::Relay, TCPType::Unspecified);
    assert!(!a.equal(&e));
    let f = candidate(NetworkType::Udp4, CandidateType::Host, TCPType::Active);
    assert!(!a.equal(&f));
    let mut g = candidate(NetworkType::Udp4, CandidateType::Host, TCPType::Unspecified);
    g.address = "192.168.0.2".to_string();
    assert!(!a.equal(&g));
    let mut h = candidate(NetworkType::Udp4, CandidateType::Host, TCPType::Unspecified);
    h.related_address = Some(CandidateRelatedAddress { address: "1.1.1.1".to_string(), port: 1 });
    assert!(!a.equal(&h) && !h.equal(&a));
    let mut i = candidate(NetworkType::Udp4, CandidateType::Host, TCPType::Unspecified);
    i.related_address = Some(CandidateRelatedAddress { address: "1.1.1.1".to_string(), port: 2 });
    assert!(!h.equal(&i));
    i.related_address = Some(CandidateRelatedAddress { address: "1.1.1.1".to_string(), port: 1 });
    assert!(h.equal(&i));
    assert_eq!(h.to_string(), i.to_string());
}

#[test]
fn getters_and_setters() {
    let mut c = candidate(NetworkType::Udp4, CandidateType::Host, TCPType::Unspecified);
    c.id = "cid".to_string();
    c.set_component(3);
    assert_eq!(c.component(), 3);
    assert_eq!(c.id(), "cid");
    assert_eq!(c.address(), "192.168.0.1");
    assert_eq!(c.port(), 5000);
    assert_eq!(c.network_type(), NetworkType::Udp4);
    assert_eq!(c.candidate_type(), CandidateType::Host);
    assert_eq!(c.tcp_type(), TCPType::Unspecified);
    assert!(c.related_address().is_none());
    let later = c.last_sent() + std::time::Duration::from_secs(5);
    c.set_last_sent(later);
    assert_eq!(c.last_sent(), later);
    c.set_last_received(later);
    assert_eq!(c.last_received(), later);
}

#[test]
fn seen_updates_one_time() {
    let mut c = candidate(NetworkType::Udp4, CandidateType::Host, TCPType::Unspecified);
    let sent = c.last_sent();
    let received = c.last_received();
    tick();
    c.seen(true);
    assert!(c.last_sent() > sent);
    assert_eq!(c.last_received(), received);
    let sent = c.last_sent();
    tick();
    c.seen(false);
    assert!(c.last_received() > received);
    assert_eq!(c.last_sent(), sent);
}

#[test]
fn write_to_marks_sent() {
    let mut c = candidate(NetworkType::Udp4, CandidateType::Host, TCPType::Unspecified);
    let other = candidate(NetworkType::Udp4, CandidateType::Relay, TCPType::Unspecified);
    let sent = c.last_sent();
    tick();
    assert_eq!(c.write_to(&[1, 2, 3], &other), Ok(0));
    assert!(c.last_sent() > sent);
}

#[test]
fn set_ip_resolves_address() {
    let mut c = candidate(NetworkType::Unspecified, CandidateType::Host, TCPType::Unspecified);
    c.network = "tcp".to_string();
    assert_eq!(c.set_ip(&ip("::2")), Ok(()));
    assert_eq!(c.network_type(), NetworkType::Tcp6);
    assert_eq!(c.addr(), SocketAddress { ip: ip("::2"), port: 5000 });
    assert_eq!(c.set_ip(&ip("::2")), Ok(()));
    assert_eq!(c.network_type(), NetworkType::Tcp6);
    assert_eq!(c.set_ip(&ip("8.8.8.8")), Ok(()));
    assert_eq!(c.network_type(), NetworkType::Tcp4);
    assert_eq!(c.addr(), SocketAddress { ip: IpAddress::V4(0x08080808), port: 5000 });
}

#[test]
fn set_ip_without_network_fails() {
    let mut c = candidate(NetworkType::Udp4, CandidateType::Host, TCPType::Unspecified);
    assert_eq!(c.set_ip(&ip("1.2.3.4")), Err(Error::ErrDetermineNetworkType));
    assert_eq!(c.network_type(), NetworkType::Udp4);
    assert_eq!(c.addr(), SocketAddress { ip: IpAddress::V4(0), port: 0 });
}

#[test]
fn create_addr_ignores_network() {
    let a = create_addr(NetworkType::Tcp6, ip("1.2.3.4"), 7);
    assert_eq!(a, SocketAddress { ip: IpAddress::V4(0x01020304), port: 7 });
    assert!(a.ip.is_ipv4());
}

#[test]
fn close_runs_handler_once() {
    let mut c = candidate(NetworkType::Udp4, CandidateType::Host, TCPType::Unspecified);
    c.on_close = Some(close_err as OnClose);
    assert_eq!(c.close(), Err(Error::Other("refused".to_string())));
    assert!(c.on_close.is_none());
    assert_eq!(c.close(), Ok(()));
    c.on_close = Some(close_ok as OnClose);
    assert_eq!(c.close(), Ok(()));
    assert!(c.on_close.is_none());
}

#[test]
fn default_candidate() {
    let c: CandidateBase<OnClose> = CandidateBase::default();
    assert_eq!(c.id(), "");
    assert_eq!(c.network_type(), NetworkType::Unspecified);
    assert_eq!(c.candidate_type(), CandidateType::Unspecified);
    assert_eq!(c.component(), 0);
    assert_eq!(c.port(), 0);
    assert_eq!(c.tcp_type(), TCPType::Unspecified);
    assert_eq!(c.addr(), SocketAddress { ip: IpAddress::V4(0), port: 0 });
    assert!(c.related_address().is_none());
    assert!(c.on_close.is_none());
    assert_eq!(c.priority_override, 0);
    assert_eq!(c.network, "");
}

#[test]
fn relay_candidate_from_config() {
    let config = relay_config("udp", "1.2.3.4", 0, "", Some(close_ok as OnClose));
    let c = new_candidate_relay(config, Some(ip("1.2.3.4"))).unwrap();
    assert_eq!(c.id(), "id1");
    assert_eq!(c.candidate_type(), CandidateType::Relay);
    assert_eq!(c.network_type(), NetworkType::Udp4);
    assert_eq!(c.addr(), SocketAddress { ip: ip("1.2.3.4"), port: 5000 });
    let r = c.related_address().unwrap();
    assert_eq!((r.address.as_str(), r.port), ("4.3.2.1", 43210));
    assert!(c.on_close.is_some());
    assert_eq!(c.network, "");
    assert_eq!(c.priority(), 256 * 65535 + 255);
    assert_eq!(c.foundation(), "3332347875");
    assert_eq!(
        c.marshal(),
        "3332347875 1 udp 16777215 1.2.3.4 5000 typ relay raddr 4.3.2.1 rport 43210"
    );
}

#[test]
fn relay_candidate_keeps_configured_priority_and_foundation() {
    let config = relay_config("TCP", "::1", 99, "found", None);
    let c = new_candidate_relay(config, Some(ip("::1"))).unwrap();
    assert_eq!(c.network_type(), NetworkType::Tcp6);
    assert_eq!(c.priority(), 99);
    assert_eq!(c.foundation(), "found");
    assert_eq!(c.marshal(), "found 1 tcp 99 ::1 5000 typ relay raddr 4.3.2.1 rport 43210");
}

#[test]
fn relay_candidate_rejects_bad_address() {
    let config = relay_config("udp", "not-an-ip", 0, "", None);
    let r = new_candidate_relay(config, None);
    assert!(matches!(r, Err(Error::ErrAddressParseFailed)));
}

#[test]
fn relay_candidate_rejects_unknown_network() {
    let config = relay_config("sctp", "1.2.3.4", 0, "", None);
    let r = new_candidate_relay(config, Some(ip("1.2.3.4")));
    assert!(matches!(r, Err(Error::ErrDetermineNetworkType)));
}

#[test]
fn relay_candidate_cannot_set_ip() {
    let config = relay_config("udp", "1.2.3.4", 0, "", None);
    let mut c = new_candidate_relay(config, Some(ip("1.2.3.4"))).unwrap();
    assert_eq!(c.set_ip(&ip("5.6.7.8")), Err(Error::ErrDetermineNetworkType));
}
