//! A bridge between rustls's synchronous record layer and completion-based
//! socket I/O: a fixed ring buffer, read and write adaptors with latched
//! status, and the decisions of the stream driver, each with a contract.
pub mod buffer;
mod engine;
pub mod error;
pub mod handshake;
pub mod stream;

pub use buffer::{RingBuffer, RingOp};
pub use error::TlsError;
pub use stream::TlsStream;
