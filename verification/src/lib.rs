//! An IPv6 probe engine for path discovery: it builds ICMPv6 echo and UDP
//! probes with valid pseudo-header checksums, and matches the ICMPv6
//! messages that come back to the probes that caused them.

pub mod error;
pub mod interface;
pub mod packet;
pub mod probe;
pub mod response;
pub mod socket;
pub mod types;
