//! The error taxonomy of the session layer. Every operation returns either
//! its value or exactly one of these; nothing is retried internally.

use vstd::prelude::*;
use crate::protocol::Opcode;

verus! {

/// Why an operation failed.
///
/// `Transport` and `ProtocolDecode` come from the collaborating byte stream
/// and codec; the remaining variants are decided by this layer, and their
/// contracts say exactly when each one comes.
#[derive(Clone, PartialEq, Eq, Debug)]
pub enum Error {
    /// An I/O failure on read, write or close, with the collaborator's
    /// message.
    Transport { message: String },
    /// A response frame could not be parsed under the active compressor;
    /// the connection is unusable afterwards.
    ProtocolDecode { message: String },
    /// The server answered with an opcode or body shape that is not valid
    /// here: options negotiation answered with anything but a well-formed
    /// SUPPORTED response.
    ProtocolViolation { got: Opcode },
    /// The server demanded authentication but omitted the scheme name its
    /// AUTHENTICATE body must carry.
    MissingAuthScheme,
    /// The server demanded authentication and the caller supplied no
    /// authenticator scheme.
    NoAuthenticator,
    /// The caller's authenticator reports a different scheme than the
    /// server advertised.
    AuthSchemeMismatch { server: String, client: String },
    /// The server broke the STARTUP contract: it replied with an opcode
    /// that is neither READY nor AUTHENTICATE. Not recoverable.
    UnexpectedStartupReply { got: Opcode },
}

impl Error {
    /// True of the errors that only caller intervention can fix: an absent,
    /// unnamed or mismatched authentication scheme.
    pub open spec fn is_configuration(self) -> bool {
        match self {
            Error::MissingAuthScheme => true,
            Error::NoAuthenticator => true,
            Error::AuthSchemeMismatch { .. } => true,
            _ => false,
        }
    }

    /// True of the errors raised by the transport or the codec rather than
    /// by this layer's own checks.
    pub open spec fn is_channel_fault(self) -> bool {
        match self {
            Error::Transport { .. } => true,
            Error::ProtocolDecode { .. } => true,
            _ => false,
        }
    }

    /// Reports whether this error is one that only caller intervention can
    /// fix.
    pub fn configuration(&self) -> (r: bool)
        ensures
            r == self.is_configuration(),
    {
        match self {
            Error::MissingAuthScheme => true,
            Error::NoAuthenticator => true,
            Error::AuthSchemeMismatch { .. } => true,
            _ => false,
        }
    }
}

} // verus!
