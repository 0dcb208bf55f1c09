//! The frame-level channel this layer talks through: the duplex byte stream
//! and the frame codec, taken together as one collaborator that accepts
//! request descriptors and hands back decoded response frames.
//!
//! A transport's model is three observers: the log of requests written, the
//! queue of frames not yet read, and how often it was shut down. Every
//! contract of the session layer is stated over these.

use vstd::prelude::*;
use crate::error::Error;
use crate::protocol::{Compression, Frame, Request};

verus! {

/// One duplex connection, owned by exactly one of connection, session or
/// listener at a time.
///
/// `send` encodes and writes one request as a single atomic write; `receive`
/// reads and decodes exactly one complete frame; `close` shuts the stream
/// down in both directions. An implementation may fail any call with a
/// transport fault, but whatever it does must be visible in the three model
/// observers exactly as stated here.
pub trait FrameTransport: Sized {
    /// The requests successfully written so far, oldest first.
    spec fn sent(&self) -> Seq<Request>;

    /// The decoded frames available to read, next one first.
    spec fn incoming(&self) -> Seq<Frame>;

    /// Whether the stream was ever shut down.
    spec fn closed(&self) -> bool;

    /// How many times the stream was shut down.
    spec fn closes(&self) -> nat;

    /// Encodes and writes one request as a single atomic write.
    fn send(&mut self, req: Request) -> (r: Result<(), Error>)
        ensures
            final(self).incoming() == old(self).incoming(),
            final(self).closed() == old(self).closed(),
            final(self).closes() == old(self).closes(),
            r matches Ok(()) ==> final(self).sent() == old(self).sent().push(req),
            r matches Err(e) ==> final(self).sent() == old(self).sent() && e is Transport,
    ;

    /// Reads and decodes exactly one complete frame under the given
    /// compressor.
    fn receive(&mut self, compressor: Compression) -> (r: Result<Frame, Error>)
        ensures
            final(self).sent() == old(self).sent(),
            final(self).closed() == old(self).closed(),
            final(self).closes() == old(self).closes(),
            r matches Ok(f) ==> old(self).incoming().len() > 0 && f == old(self).incoming()[0]
                && final(self).incoming() == old(self).incoming().drop_first(),
            r matches Err(e) ==> (e is Transport || e is ProtocolDecode),
    ;

    /// Shuts the stream down in both directions. The stream counts as
    /// closed afterwards even when the shutdown call itself failed.
    fn close(&mut self) -> (r: Result<(), Error>)
        ensures
            final(self).sent() == old(self).sent(),
            final(self).incoming() == old(self).incoming(),
            final(self).closed(),
            final(self).closes() == old(self).closes() + 1,
            r matches Err(e) ==> e is Transport,
    ;
}

} // verus!
