//! Views over the fixed-layout headers that the engine sends and receives.

pub mod bytes;
pub mod checksum;
pub mod destination_unreachable;
pub mod echo_reply;
pub mod echo_request;
pub mod icmpv6;
pub mod ipv6;
pub mod tcp;
pub mod time_exceeded;
pub mod udp;
