//! The ways in which an operation of the engine fails.

use vstd::prelude::*;

verus! {

/// An error of the operating system, carried through as it came.
#[verifier::external_type_specification]
#[verifier::external_body]
pub struct ExIoError(std::io::Error);

/// Why an operation of the engine failed.
#[derive(Debug)]
pub enum TracerError {
    /// The requested packet size is above the engine's maximum.
    InvalidPacketSize(usize),
    /// The named interface has no IPv6 address.
    UnknownInterface(String),
    /// A socket operation failed, for another reason than that it would block.
    IoError(std::io::Error),
    /// A packet is shorter than the header that it should start with.
    PacketTooShort,
    /// The configuration is well-formed, but the engine does not support it.
    Unimplemented,
}

/// The result of an operation of the engine.
pub type TraceResult<T> = Result<T, TracerError>;

} // verus!
