# webrtc_ice

ICE candidates (RFC 8445, RFC 6544) with Verus contracts: candidate, network
and TCP types; the priority formula and local preference; the foundation (a
CRC-32 checksum of the type names, computed by `crc32fast`); the SDP
`candidate` attribute text; candidate equality; relayed candidate construction.

- `src/` the verified library; `src/candidate_base.rs` holds the candidate and
  the proofs of its laws, `src/candidate_relay.rs` the relay constructor.
- `app/` the std edge: conversions to `std::net` addresses and the address
  parsing that comes before `new_candidate_relay`.
- `tests/` tests on concrete candidates.
