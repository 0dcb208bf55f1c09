//! A started session and what it owns: the uniform request/response round
//! trip for prepare, execute, query and batch, the idempotent end of the
//! connection, and the one-way handoff to an event listener.

use vstd::prelude::*;
use crate::auth::Authenticator;
use crate::client::{CDRS, FailedExchange};
use crate::error::Error;
use crate::protocol::{
    Compression, Frame, Query, QueryBatch, QueryFlags, QueryParams, Request, SimpleServerEvent,
};
use crate::transport::FrameTransport;

verus! {

/// A started connection: the wrapped bootstrap state, a `started` mark that
/// `end` clears exactly once, and the compressor used for subsequent
/// requests.
pub struct Session<T: Authenticator, X: FrameTransport> {
    pub started: bool,
    pub cdrs: CDRS<T, X>,
    pub compressor: Compression,
}

impl<T: Authenticator, X: FrameTransport> Session<T, X> {
    /// Wraps a connection whose handshake succeeded; the session echoes the
    /// connection's compressor.
    pub fn start(cdrs: CDRS<T, X>) -> (r: Session<T, X>)
        ensures
            r.started,
            r.cdrs == cdrs,
            r.compressor == cdrs.compressor,
    {
        let compressor = cdrs.compressor;
        Session { cdrs, started: true, compressor }
    }

    /// Overrides the compressor for subsequent requests only; nothing else
    /// of the session changes.
    pub fn compressor(&mut self, compressor: Compression) -> (r: &mut Self)
        ensures
            (*r).compressor == compressor,
            (*r).started == old(self).started,
            (*r).cdrs == old(self).cdrs,
            *final(self) == *final(r),
    {
        self.compressor = compressor;
        self
    }

    /// Ends the session: the first call shuts the transport down exactly
    /// once and surfaces a close failure without reversing the ended state;
    /// every later call is a no-op that succeeds.
    pub fn end(&mut self) -> (r: Option<Error>)
        ensures
            !final(self).started,
            final(self).compressor == old(self).compressor,
            final(self).cdrs.compressor == old(self).cdrs.compressor,
            final(self).cdrs.authenticator == old(self).cdrs.authenticator,
            final(self).cdrs.transport.sent() == old(self).cdrs.transport.sent(),
            final(self).cdrs.transport.incoming() == old(self).cdrs.transport.incoming(),
            old(self).started ==> final(self).cdrs.transport.closed() && final(self).cdrs.transport.closes() == old(self).cdrs.transport.closes() + 1,
            old(self).started ==> (r matches Some(e) ==> e is Transport),
            !old(self).started ==> *final(self) == *old(self) && r is None,
    {
        if self.started {
            self.started = false;
            match self.cdrs.transport.close() {
                Ok(()) => None,
                Err(e) => Some(e),
            }
        } else {
            None
        }
    }

    /// The uniform round trip of every request operation: exactly one write
    /// of the given descriptor, then exactly one read, whose frame is
    /// returned uninterpreted.
    fn round_trip(&mut self, req: Request) -> (r: Result<Frame, Error>)
        ensures
            final(self).started == old(self).started,
            final(self).compressor == old(self).compressor,
            final(self).cdrs.compressor == old(self).cdrs.compressor,
            final(self).cdrs.authenticator == old(self).cdrs.authenticator,
            final(self).cdrs.transport.closed() == old(self).cdrs.transport.closed(),
            final(self).cdrs.transport.closes() == old(self).cdrs.transport.closes(),
            ({
                let s0 = old(self).cdrs.transport.sent();
                let i0 = old(self).cdrs.transport.incoming();
                &&& (r matches Ok(f) ==> {
                    &&& final(self).cdrs.transport.sent() == s0.push(req)
                    &&& i0.len() > 0
                    &&& f == i0[0]
                    &&& final(self).cdrs.transport.incoming() == i0.drop_first()
                })
                &&& (r matches Err(e) ==> e.is_channel_fault() && ((final(self).cdrs.transport.sent() == s0 && final(self).cdrs.transport.incoming() == i0
                    && e is Transport) || final(self).cdrs.transport.sent() == s0.push(req)))
            }),
    {
        match self.cdrs.transport.send(req) {
            Err(e) => {
                return Err(e);
            },
            Ok(()) => {},
        }
        self.cdrs.transport.receive(self.compressor)
    }

    /// Asks the server to prepare a query: one PREPARE write carrying the
    /// text and the flags the toggles name, one read, the frame returned
    /// uninterpreted.
    pub fn prepare(&mut self, query: String, with_tracing: bool, with_warnings: bool) -> (r:
        Result<Frame, Error>)
        ensures
            final(self).started == old(self).started,
            final(self).compressor == old(self).compressor,
            final(self).cdrs.compressor == old(self).cdrs.compressor,
            final(self).cdrs.authenticator == old(self).cdrs.authenticator,
            final(self).cdrs.transport.closed() == old(self).cdrs.transport.closed(),
            final(self).cdrs.transport.closes() == old(self).cdrs.transport.closes(),
            ({
                let s0 = old(self).cdrs.transport.sent();
                let i0 = old(self).cdrs.transport.incoming();
                let req = Request::Prepare {
                    query,
                    flags: QueryFlags { tracing: with_tracing, warnings: with_warnings },
                };
                &&& (r matches Ok(f) ==> {
                    &&& final(self).cdrs.transport.sent() == s0.push(req)
                    &&& i0.len() > 0
                    &&& f == i0[0]
                    &&& final(self).cdrs.transport.incoming() == i0.drop_first()
                })
                &&& (r matches Err(e) ==> e.is_channel_fault() && ((final(self).cdrs.transport.sent() == s0 && final(self).cdrs.transport.incoming() == i0)
                    || final(self).cdrs.transport.sent() == s0.push(req)))
            }),
    {
        self.round_trip(
            Request::Prepare {
                query,
                flags: QueryFlags { tracing: with_tracing, warnings: with_warnings },
            },
        )
    }

    /// Executes a previously prepared statement by its id: one EXECUTE
    /// write, one read, the frame returned uninterpreted.
    pub fn execute(
        &mut self,
        id: Vec<u8>,
        query_parameters: QueryParams,
        with_tracing: bool,
        with_warnings: bool,
    ) -> (r: Result<Frame, Error>)
        ensures
            final(self).started == old(self).started,
            final(self).compressor == old(self).compressor,
            final(self).cdrs.compressor == old(self).cdrs.compressor,
            final(self).cdrs.authenticator == old(self).cdrs.authenticator,
            final(self).cdrs.transport.closed() == old(self).cdrs.transport.closed(),
            final(self).cdrs.transport.closes() == old(self).cdrs.transport.closes(),
            ({
                let s0 = old(self).cdrs.transport.sent();
                let i0 = old(self).cdrs.transport.incoming();
                let req = Request::Execute {
                    id,
                    params: query_parameters,
                    flags: QueryFlags { tracing: with_tracing, warnings: with_warnings },
                };
                &&& (r matches Ok(f) ==> {
                    &&& final(self).cdrs.transport.sent() == s0.push(req)
                    &&& i0.len() > 0
                    &&& f == i0[0]
                    &&& final(self).cdrs.transport.incoming() == i0.drop_first()
                })
                &&& (r matches Err(e) ==> e.is_channel_fault() && ((final(self).cdrs.transport.sent() == s0 && final(self).cdrs.transport.incoming() == i0)
                    || final(self).cdrs.transport.sent() == s0.push(req)))
            }),
    {
        self.round_trip(
            Request::Execute {
                id,
                params: query_parameters,
                flags: QueryFlags { tracing: with_tracing, warnings: with_warnings },
            },
        )
    }

    /// Runs one query: one QUERY write carrying the full request
    /// parameters, one read, the frame returned uninterpreted.
    pub fn query(&mut self, query: Query, with_tracing: bool, with_warnings: bool) -> (r: Result<
        Frame,
        Error,
    >)
        ensures
            final(self).started == old(self).started,
            final(self).compressor == old(self).compressor,
            final(self).cdrs.compressor == old(self).cdrs.compressor,
            final(self).cdrs.authenticator == old(self).cdrs.authenticator,
            final(self).cdrs.transport.closed() == old(self).cdrs.transport.closed(),
            final(self).cdrs.transport.closes() == old(self).cdrs.transport.closes(),
            ({
                let s0 = old(self).cdrs.transport.sent();
                let i0 = old(self).cdrs.transport.incoming();
                let req = Request::Query {
                    request: query,
                    flags: QueryFlags { tracing: with_tracing, warnings: with_warnings },
                };
                &&& (r matches Ok(f) ==> {
                    &&& final(self).cdrs.transport.sent() == s0.push(req)
                    &&& i0.len() > 0
                    &&& f == i0[0]
                    &&& final(self).cdrs.transport.incoming() == i0.drop_first()
                })
                &&& (r matches Err(e) ==> e.is_channel_fault() && ((final(self).cdrs.transport.sent() == s0 && final(self).cdrs.transport.incoming() == i0)
                    || final(self).cdrs.transport.sent() == s0.push(req)))
            }),
    {
        self.round_trip(
            Request::Query {
                request: query,
                flags: QueryFlags { tracing: with_tracing, warnings: with_warnings },
            },
        )
    }

    /// Sends one pre-built batch: one BATCH write, one read, the frame
    /// returned uninterpreted.
    pub fn batch(&mut self, batch_query: QueryBatch, with_tracing: bool, with_warnings: bool) -> (r:
        Result<Frame, Error>)
        ensures
            final(self).started == old(self).started,
            final(self).compressor == old(self).compressor,
            final(self).cdrs.compressor == old(self).cdrs.compressor,
            final(self).cdrs.authenticator == old(self).cdrs.authenticator,
            final(self).cdrs.transport.closed() == old(self).cdrs.transport.closed(),
            final(self).cdrs.transport.closes() == old(self).cdrs.transport.closes(),
            ({
                let s0 = old(self).cdrs.transport.sent();
                let i0 = old(self).cdrs.transport.incoming();
                let req = Request::Batch {
                    batch: batch_query,
                    flags: QueryFlags { tracing: with_tracing, warnings: with_warnings },
                };
                &&& (r matches Ok(f) ==> {
                    &&& final(self).cdrs.transport.sent() == s0.push(req)
                    &&& i0.len() > 0
                    &&& f == i0[0]
                    &&& final(self).cdrs.transport.incoming() == i0.drop_first()
                })
                &&& (r matches Err(e) ==> e.is_channel_fault() && ((final(self).cdrs.transport.sent() == s0 && final(self).cdrs.transport.incoming() == i0)
                    || final(self).cdrs.transport.sent() == s0.push(req)))
            }),
    {
        self.round_trip(
            Request::Batch {
                batch: batch_query,
                flags: QueryFlags { tracing: with_tracing, warnings: with_warnings },
            },
        )
    }

    /// Registers for server-side events and consumes the session: one
    /// REGISTER write, one confirmation read whose content is not further
    /// inspected, then the transport belongs to the returned listener alone.
    pub fn listen_for(self, events: Vec<SimpleServerEvent>) -> (r: Result<
        Listener<X>,
        FailedExchange<X>,
    >)
        ensures
            ({
                let s0 = self.cdrs.transport.sent();
                let i0 = self.cdrs.transport.incoming();
                let req = Request::Register { events };
                &&& (r matches Ok(l) ==> {
                    &&& l.compressor == self.compressor
                    &&& l.transport.closed() == self.cdrs.transport.closed()
                    &&& l.transport.closes() == self.cdrs.transport.closes()
                    &&& l.transport.sent() == s0.push(req)
                    &&& i0.len() > 0
                    &&& l.transport.incoming() == i0.drop_first()
                })
                &&& (r matches Err(f) ==> {
                    &&& f.error.is_channel_fault()
                    &&& f.transport.closed() == self.cdrs.transport.closed()
                    &&& f.transport.closes() == self.cdrs.transport.closes()
                    &&& (f.transport.sent() == s0 || f.transport.sent() == s0.push(req))
                })
            }),
    {
        let Session { started: _, cdrs, compressor } = self;
        let CDRS { compressor: _, authenticator: _, mut transport } = cdrs;
        match transport.send(Request::Register { events }) {
            Err(e) => {
                return Err(FailedExchange { error: e, transport });
            },
            Ok(()) => {},
        }
        match transport.receive(compressor) {
            Err(e) => {
                return Err(FailedExchange { error: e, transport });
            },
            Ok(_) => {},
        }
        Ok(Listener { transport, compressor })
    }
}

/// The post-registration owner of the connection: a notification producer
/// that yields pushed events in the order received, and the handle that can
/// close the stream independently of reading it.
pub struct Listener<X: FrameTransport> {
    pub transport: X,
    pub compressor: Compression,
}

impl<X: FrameTransport> Listener<X> {
    /// Reads the next pushed event frame; events come out in exactly the
    /// order the server sent them, and the stream never ends on its own —
    /// only a transport fault or close does.
    pub fn next_event(&mut self) -> (r: Result<Frame, Error>)
        ensures
            final(self).compressor == old(self).compressor,
            final(self).transport.sent() == old(self).transport.sent(),
            final(self).transport.closed() == old(self).transport.closed(),
            final(self).transport.closes() == old(self).transport.closes(),
            r matches Ok(f) ==> old(self).transport.incoming().len() > 0 && f == old(self).transport.incoming()[0] && final(self).transport.incoming() == old(self).transport.incoming().drop_first(),
            r matches Err(e) ==> e.is_channel_fault(),
    {
        self.transport.receive(self.compressor)
    }

    /// Closes the underlying connection.
    pub fn close(&mut self) -> (r: Result<(), Error>)
        ensures
            final(self).compressor == old(self).compressor,
            final(self).transport.sent() == old(self).transport.sent(),
            final(self).transport.incoming() == old(self).transport.incoming(),
            final(self).transport.closed(),
            final(self).transport.closes() == old(self).transport.closes() + 1,
            r matches Err(e) ==> e is Transport,
    {
        self.transport.close()
    }
}

/// Under strictly sequential invocation the n-th successful round trip
/// answers with the n-th incoming frame: each success consumes exactly the
/// head of the stream, so after `k` of them the next head is frame `k` of
/// the original stream.
pub proof fn lemma_nth_read_is_nth_frame(frames: Seq<Frame>, k: int)
    requires
        0 <= k < frames.len(),
    ensures
        frames.skip(k)[0] == frames[k],
        frames.skip(k).drop_first() == frames.skip(k + 1),
{
    assert(frames.skip(k).drop_first() =~= frames.skip(k + 1));
}

} // verus!
