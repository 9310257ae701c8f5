//! SCTP chunks and parameters (RFC 4960): their headers, and the SHUTDOWN,
//! SHUTDOWN COMPLETE and unknown chunks, and the heartbeat information,
//! random and state cookie parameters.
use vstd::prelude::*;

pub mod chunk_header;
pub mod chunk_shutdown;
pub mod chunk_shutdown_complete;
pub mod chunk_unknown;
pub mod param_header;
pub mod param_heartbeat_info;
pub mod param_random;
pub mod param_state_cookie;
pub mod param_type;

verus! {

/// Why an SCTP chunk or parameter was refused.
#[derive(Debug, Clone, Copy, PartialEq, Eq, Structural)]
pub enum Error {
    /// Fewer bytes than a chunk header takes.
    ErrChunkHeaderTooSmall,
    /// The chunk's length field is shorter than its header or longer than the input.
    ErrChunkHeaderInvalidLength,
    /// A byte of the padding after the chunk is not zero.
    ErrChunkHeaderPaddingNonZero,
    /// The chunk is not a SHUTDOWN chunk.
    ErrChunkTypeNotShutdown,
    /// The chunk is not a SHUTDOWN COMPLETE chunk.
    ErrChunkTypeNotShutdownComplete,
    /// The chunk does not have the size that its type fixes.
    ErrInvalidChunkSize,
    /// Fewer bytes than a parameter header takes, or a length field out of range.
    ErrParamHeaderTooShort,
}

} // verus!
