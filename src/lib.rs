//! A running digest over the messages of a handshake.
//!
//! The digest algorithm is only known partway through a handshake, so the
//! bytes seen before that point are kept and hashed once the algorithm is
//! chosen; afterwards bytes are hashed as they arrive, and kept only while
//! the full transcript may still be needed for client authentication.
use vstd::prelude::*;

pub mod digest;
pub mod laws;
pub mod transcript;

pub use digest::DigestAlgorithm;
pub use transcript::{HandshakeHash, TranscriptState};
