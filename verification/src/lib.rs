//! ICE candidates (RFC 8445, RFC 6544): their types, priorities, foundations
//! and SDP text form.

pub mod address;
pub mod candidate_base;
pub mod candidate_relay;
pub mod candidate_type;
pub mod checksum;
pub mod decimal;
pub mod error;
pub mod network_type;
pub mod tcp_type;
pub mod time;
