//! An in-memory transport: it answers from a pre-set script of frames and
//! records every request it is handed. It is the transport the crate's own
//! tests drive the handshake and dispatch logic with, and a worked example
//! of the [`FrameTransport`] contract.

use vstd::prelude::*;
use crate::error::Error;
use crate::protocol::{Compression, Frame, Request};
use crate::transport::FrameTransport;

verus! {

/// A scripted duplex connection held entirely in memory.
///
/// Reads serve the `script` front to back; an exhausted script fails like a
/// broken stream. Writes append to `sent_log`. `close_count` mirrors the
/// ghost close tally as long as that fits a machine word.
pub struct InMemoryTransport {
    pub script: Vec<Frame>,
    pub sent_log: Vec<Request>,
    pub shut: bool,
    pub close_count: u64,
    pub close_tally: Ghost<nat>,
}

impl InMemoryTransport {
    /// A fresh open transport that will answer with the given frames, in
    /// order.
    pub fn new(script: Vec<Frame>) -> (r: InMemoryTransport)
        ensures
            r.incoming() == script@,
            r.sent() == Seq::<Request>::empty(),
            !r.closed(),
            r.closes() == 0,
            r.close_count == 0,
    {
        InMemoryTransport {
            script,
            sent_log: Vec::new(),
            shut: false,
            close_count: 0,
            close_tally: Ghost(0),
        }
    }

    /// The requests written so far, oldest first.
    pub fn sent_so_far(&self) -> (r: &Vec<Request>)
        ensures
            r@ == self.sent(),
    {
        &self.sent_log
    }
}

impl FrameTransport for InMemoryTransport {
    open spec fn sent(&self) -> Seq<Request> {
        self.sent_log@
    }

    open spec fn incoming(&self) -> Seq<Frame> {
        self.script@
    }

    open spec fn closed(&self) -> bool {
        self.shut
    }

    open spec fn closes(&self) -> nat {
        self.close_tally@
    }

    fn send(&mut self, req: Request) -> (r: Result<(), Error>) {
        self.sent_log.push(req);
        Ok(())
    }

    fn receive(&mut self, compressor: Compression) -> (r: Result<Frame, Error>) {
        if self.script.len() == 0 {
            Err(Error::Transport { message: "in-memory transport: no frame left to read".to_owned() })
        } else {
            let f = self.script.remove(0);
            proof {
                assert(self.script@ =~= old(self).script@.drop_first());
            }
            Ok(f)
        }
    }

    fn close(&mut self) -> (r: Result<(), Error>)
        ensures
            old(self).close_count < u64::MAX ==> final(self).close_count == old(
                self,
            ).close_count + 1,
    {
        self.shut = true;
        if self.close_count < u64::MAX {
            self.close_count = self.close_count + 1;
        }
        self.close_tally = Ghost(self.close_tally@ + 1);
        Ok(())
    }
}

} // verus!
