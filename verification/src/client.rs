//! Connection bootstrap: one transport, a chosen compressor and an
//! authenticator, and the STARTUP → READY/AUTHENTICATE handshake that turns
//! the connection into a started session.

use vstd::prelude::*;
use crate::auth::Authenticator;
use crate::body::{auth_scheme_of, pairs_all_utf8, pairs_model, parse_auth_scheme, parse_supported, supported_pairs};
use crate::error::Error;
use crate::protocol::{Compression, Opcode, Request};
use crate::session::Session;
use crate::transport::FrameTransport;

verus! {

/// The supported-options mapping a server advertises: option name to the
/// list of accepted values, in the order the server sent them.
pub type CassandraOptions = Vec<(String, Vec<String>)>;

/// A failed exchange: the error, together with the transport handed back so
/// the caller can inspect what was written and close the stream.
pub struct FailedExchange<X: FrameTransport> {
    pub error: Error,
    pub transport: X,
}

/// One connection before its handshake: the transport it exclusively owns,
/// the caller-supplied authenticator, and the compressor chosen so far.
pub struct CDRS<T: Authenticator, X: FrameTransport> {
    pub compressor: Compression,
    pub authenticator: T,
    pub transport: X,
}

impl<T: Authenticator, X: FrameTransport> CDRS<T, X> {
    /// Takes exclusive ownership of a transport; no compression until
    /// `start` chooses a codec.
    pub fn new(transport: X, authenticator: T) -> (r: CDRS<T, X>)
        ensures
            r.transport == transport,
            r.authenticator == authenticator,
            r.compressor == Compression::Uncompressed,
    {
        CDRS { compressor: Compression::Uncompressed, authenticator, transport }
    }

    /// Sends one OPTIONS request and reads one response, which must be a
    /// well-formed SUPPORTED frame; anything else is a protocol violation,
    /// and no further write is ever issued.
    pub fn get_options(&mut self) -> (r: Result<CassandraOptions, Error>)
        ensures
            final(self).compressor == old(self).compressor,
            final(self).authenticator == old(self).authenticator,
            final(self).transport.closed() == old(self).transport.closed(),
            final(self).transport.closes() == old(self).transport.closes(),
            final(self).transport.sent() == old(self).transport.sent() || final(self).transport.sent()
                == old(self).transport.sent().push(Request::Options),
            ({
                let s0 = old(self).transport.sent();
                let i0 = old(self).transport.incoming();
                &&& (r matches Ok(opts) ==> {
                    &&& final(self).transport.sent() == s0.push(Request::Options)
                    &&& i0.len() > 0
                    &&& i0[0].opcode == Opcode::Supported
                    &&& final(self).transport.incoming() == i0.drop_first()
                    &&& supported_pairs(i0[0].body@) == Some(pairs_model(opts@))
                })
                &&& (r matches Err(e) ==> (e.is_channel_fault() || {
                    &&& i0.len() > 0
                    &&& final(self).transport.sent() == s0.push(Request::Options)
                    &&& final(self).transport.incoming() == i0.drop_first()
                    &&& (e matches Error::ProtocolViolation { got } && got == i0[0].opcode)
                    &&& (i0[0].opcode == Opcode::Supported ==> !(supported_pairs(i0[0].body@)
                        matches Some(q) && pairs_all_utf8(q)))
                }))
            }),
    {
        match self.transport.send(Request::Options) {
            Err(e) => {
                return Err(e);
            },
            Ok(()) => {},
        }
        let f = match self.transport.receive(self.compressor) {
            Err(e) => {
                return Err(e);
            },
            Ok(f) => f,
        };
        if f.opcode == Opcode::Supported {
            match parse_supported(&f.body) {
                Some(opts) => Ok(opts),
                None => Err(Error::ProtocolViolation { got: f.opcode }),
            }
        } else {
            Err(Error::ProtocolViolation { got: f.opcode })
        }
    }

    /// Fixes the connection's compressor, sends STARTUP naming it, and
    /// drives the handshake to a started session.
    ///
    /// READY succeeds at once with nothing but the STARTUP written.
    /// AUTHENTICATE demands a scheme name in its body (else
    /// `MissingAuthScheme`), an authenticator that names a scheme (else
    /// `NoAuthenticator`), and agreement of the two (else
    /// `AuthSchemeMismatch`); only then is one AUTH_RESPONSE carrying the
    /// authenticator's token written, and any response to it completes the
    /// handshake. Any other opcode breaks the STARTUP contract and aborts.
    pub fn start(self, compressor: Compression) -> (r: Result<Session<T, X>, FailedExchange<X>>)
        ensures
            ({
                let s0 = self.transport.sent();
                let i0 = self.transport.incoming();
                let st = Request::Startup { compression: compressor };
                &&& (r matches Ok(s) ==> {
                    let t = s.cdrs.transport;
                    &&& s.started
                    &&& s.compressor == compressor
                    &&& s.cdrs.compressor == compressor
                    &&& s.cdrs.authenticator == self.authenticator
                    &&& t.closed() == self.transport.closed()
                    &&& t.closes() == self.transport.closes()
                    &&& i0.len() >= 1
                    &&& (i0[0].opcode == Opcode::Ready || i0[0].opcode == Opcode::Authenticate)
                    &&& (i0[0].opcode == Opcode::Ready ==> {
                        &&& t.sent() == s0.push(st)
                        &&& t.incoming() == i0.drop_first()
                    })
                    &&& (i0[0].opcode == Opcode::Authenticate ==> {
                        &&& i0.len() >= 2
                        &&& auth_scheme_of(i0[0].body@) is Some
                        &&& self.authenticator.scheme() == Some(auth_scheme_of(i0[0].body@)->Some_0)
                        &&& t.sent().len() == s0.len() + 2
                        &&& t.sent().subrange(0, s0.len() as int) == s0
                        &&& t.sent()[s0.len() as int] == st
                        &&& (t.sent().last() matches Request::AuthResponse { token } && token@
                            == self.authenticator.token())
                        &&& t.incoming() == i0.drop_first().drop_first()
                    })
                })
                &&& (r matches Err(f) ==> {
                    let t = f.transport;
                    &&& t.closed() == self.transport.closed()
                    &&& t.closes() == self.transport.closes()
                    &&& t.sent().len() <= s0.len() + 2
                    &&& s0.is_prefix_of(t.sent())
                    &&& (t.sent().len() > s0.len() ==> t.sent()[s0.len() as int] == st)
                    &&& (t.sent().len() == s0.len() + 2 ==> {
                        &&& (t.sent().last() matches Request::AuthResponse { token } && token@
                            == self.authenticator.token())
                        &&& i0.len() >= 1
                        &&& i0[0].opcode == Opcode::Authenticate
                        &&& self.authenticator.scheme() == Some(auth_scheme_of(i0[0].body@)->Some_0)
                    })
                    &&& (f.error.is_channel_fault() || {
                        &&& i0.len() >= 1
                        &&& t.sent() == s0.push(st)
                        &&& t.incoming() == i0.drop_first()
                        &&& match f.error {
                            Error::MissingAuthScheme => i0[0].opcode == Opcode::Authenticate
                                && auth_scheme_of(i0[0].body@) is None,
                            Error::NoAuthenticator => i0[0].opcode == Opcode::Authenticate
                                && auth_scheme_of(i0[0].body@) is Some
                                && self.authenticator.scheme() is None,
                            Error::AuthSchemeMismatch { server, client } => {
                                &&& i0[0].opcode == Opcode::Authenticate
                                &&& auth_scheme_of(i0[0].body@) == Some(server@)
                                &&& self.authenticator.scheme() == Some(client@)
                                &&& server@ != client@
                            },
                            Error::UnexpectedStartupReply { got } => {
                                &&& got == i0[0].opcode
                                &&& got != Opcode::Ready
                                &&& got != Opcode::Authenticate
                            },
                            _ => false,
                        }
                    })
                })
            }),
    {
        let ghost s0 = self.transport.sent();
        let CDRS { compressor: _, authenticator, mut transport } = self;
        match transport.send(Request::Startup { compression: compressor }) {
            Err(e) => {
                return Err(FailedExchange { error: e, transport });
            },
            Ok(()) => {},
        }
        let first = match transport.receive(compressor) {
            Err(e) => {
                return Err(FailedExchange { error: e, transport });
            },
            Ok(f) => f,
        };
        if first.opcode == Opcode::Ready {
            return Ok(Session::start(CDRS { compressor, authenticator, transport }));
        }
        if first.opcode == Opcode::Authenticate {
            let server_scheme = match parse_auth_scheme(&first.body) {
                None => {
                    return Err(FailedExchange { error: Error::MissingAuthScheme, transport });
                },
                Some(s) => s,
            };
            let client_scheme = match authenticator.get_cassandra_name() {
                None => {
                    return Err(FailedExchange { error: Error::NoAuthenticator, transport });
                },
                Some(s) => s,
            };
            if !(server_scheme == client_scheme) {
                return Err(FailedExchange {
                    error: Error::AuthSchemeMismatch { server: server_scheme, client: client_scheme },
                    transport,
                });
            }
            let token = authenticator.get_auth_token();
            match transport.send(Request::AuthResponse { token }) {
                Err(e) => {
                    return Err(FailedExchange { error: e, transport });
                },
                Ok(()) => {},
            }
            match transport.receive(compressor) {
                Err(e) => {
                    proof {
                        assert(transport.sent().subrange(0, s0.len() as int) =~= s0);
                        assert(s0.is_prefix_of(transport.sent()));
                    }
                    return Err(FailedExchange { error: e, transport });
                },
                Ok(_) => {},
            }
            proof {
                assert(transport.sent().subrange(0, s0.len() as int) =~= s0);
            }
            return Ok(Session::start(CDRS { compressor, authenticator, transport }));
        }
        Err(FailedExchange {
            error: Error::UnexpectedStartupReply { got: first.opcode },
            transport,
        })
    }
}

} // verus!
