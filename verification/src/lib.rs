//! Client-side engine for a line-oriented text protocol spoken with a
//! search/indexing backend over a single TCP connection.
//!
//! The crate holds the protocol logic itself: the per-connection negotiated
//! state, the two-step handshake (greeting, then mode start), the generic
//! write-command/read-response/decode dispatch cycle, and the closed error
//! taxonomy. The raw socket and its asynchronous reads and writes live with
//! the caller, which drives the dispatch steps offered here and hands every
//! line of text back in for the verified decisions.

pub mod channels;
pub mod commands;
pub mod errors;
pub mod text;

pub use channels::ChannelMode;
pub use channels::SonicStream;
pub use commands::RawCommand;
pub use commands::StartCommand;
pub use commands::StartResponse;
pub use commands::StreamCommand;
pub use errors::Error;
pub use errors::ErrorKind;
