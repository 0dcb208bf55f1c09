//! Client-side session layer of the CQL native wire protocol.
//!
//! The crate owns connection bootstrap, the STARTUP/AUTHENTICATE handshake,
//! and the request/response lifecycle for queries, prepared statements,
//! batches and server-side event subscriptions. Frame header encoding and the
//! raw byte stream are external collaborators reached through the
//! [`transport::FrameTransport`] trait; everything this layer decides is
//! specified and verified here.

pub mod auth;
pub mod body;
pub mod client;
pub mod error;
pub mod memory;
pub mod protocol;
pub mod session;
pub mod transport;

pub use auth::Authenticator;
pub use auth::NoneAuthenticator;
pub use auth::PasswordAuthenticator;
pub use client::CassandraOptions;
pub use client::FailedExchange;
pub use client::CDRS;
pub use error::Error;
pub use memory::InMemoryTransport;
pub use protocol::Compression;
pub use protocol::Flag;
pub use protocol::Frame;
pub use protocol::Opcode;
pub use session::Listener;
pub use session::Session;
pub use transport::FrameTransport;
