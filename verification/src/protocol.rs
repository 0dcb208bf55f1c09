//! Plain models of the protocol values this layer reads and writes: opcodes,
//! the negotiated compression codec, per-request flags, request descriptors
//! and the response frame envelope. Frame bodies stay opaque bytes except
//! where the handshake or options negotiation must look inside them.

use vstd::prelude::*;

verus! {

/// The message-kind tag carried in a frame header. This layer branches only
/// on `Ready`, `Authenticate` and `Supported`; every other value is passed
/// through uninterpreted.
#[derive(Clone, Copy, PartialEq, Eq, Structural, Debug, Hash)]
pub enum Opcode {
    Error,
    Startup,
    Ready,
    Authenticate,
    Options,
    Supported,
    Query,
    Result,
    Prepare,
    Execute,
    Register,
    Event,
    Batch,
    AuthChallenge,
    AuthResponse,
    AuthSuccess,
}

/// The frame-body compression codec, fixed when a session starts.
#[derive(Clone, Copy, PartialEq, Eq, Structural, Debug, Hash)]
pub enum Compression {
    Uncompressed,
    Lz4,
    Snappy,
}

impl Compression {
    /// The name under which the codec is announced in a STARTUP request;
    /// the empty string stands for no compression.
    pub open spec fn name_spec(self) -> Seq<char> {
        match self {
            Compression::Uncompressed => ""@,
            Compression::Lz4 => "lz4"@,
            Compression::Snappy => "snappy"@,
        }
    }

    /// The codec's wire name, as announced in a STARTUP request.
    pub fn as_str(&self) -> (r: &'static str)
        ensures
            r@ == self.name_spec(),
    {
        match self {
            Compression::Uncompressed => "",
            Compression::Lz4 => "lz4",
            Compression::Snappy => "snappy",
        }
    }
}

/// A per-request protocol flag; a request carries a flag exactly when the
/// caller asked for it.
#[derive(Clone, Copy, PartialEq, Eq, Structural, Debug)]
pub enum Flag {
    Tracing,
    Warning,
}

/// The two per-request toggles as a pair, the form in which a request
/// descriptor records them.
#[derive(Clone, Copy, PartialEq, Eq, Structural, Debug)]
pub struct QueryFlags {
    pub tracing: bool,
    pub warnings: bool,
}

/// The exact flag list for a pair of toggles: `Tracing` first when asked
/// for, then `Warning` when asked for, and nothing else.
pub open spec fn flags_spec(with_tracing: bool, with_warnings: bool) -> Seq<Flag> {
    let t = if with_tracing { seq![Flag::Tracing] } else { Seq::<Flag>::empty() };
    let w = if with_warnings { seq![Flag::Warning] } else { Seq::<Flag>::empty() };
    t + w
}

/// Builds the flag list a request carries: each flag is present exactly when
/// its toggle is true, and no other flag is ever injected.
pub fn request_flags(with_tracing: bool, with_warnings: bool) -> (r: Vec<Flag>)
    ensures
        r@ == flags_spec(with_tracing, with_warnings),
{
    let mut flags: Vec<Flag> = Vec::new();
    if with_tracing {
        flags.push(Flag::Tracing);
    }
    if with_warnings {
        flags.push(Flag::Warning);
    }
    proof {
        assert(flags@ =~= flags_spec(with_tracing, with_warnings));
    }
    flags
}

/// The flag list for a pair of toggles carries each flag exactly when its
/// toggle is true, whatever the combination: membership in the encoded set
/// equals the toggle, and nothing else is ever present.
pub proof fn lemma_flag_set_exact(with_tracing: bool, with_warnings: bool)
    ensures
        flags_spec(with_tracing, with_warnings).contains(Flag::Tracing) == with_tracing,
        flags_spec(with_tracing, with_warnings).contains(Flag::Warning) == with_warnings,
        flags_spec(with_tracing, with_warnings).len() == (if with_tracing {
            1int
        } else {
            0int
        }) + (if with_warnings {
            1int
        } else {
            0int
        }),
{
    let s = flags_spec(with_tracing, with_warnings);
    if with_tracing {
        assert(s[0] == Flag::Tracing);
        assert(s.contains(Flag::Tracing));
    } else {
        assert(forall|i: int| 0 <= i < s.len() ==> #[trigger] s[i] == Flag::Warning);
        assert(!s.contains(Flag::Tracing));
    }
    if with_warnings {
        assert(s[s.len() - 1] == Flag::Warning);
        assert(s.contains(Flag::Warning));
    } else {
        assert(forall|i: int| 0 <= i < s.len() ==> #[trigger] s[i] == Flag::Tracing);
        assert(!s.contains(Flag::Warning));
    }
}

/// One response frame as the collaborating codec hands it over: the opcode
/// from the header and the body bytes, uninterpreted by this layer except
/// during the handshake and options negotiation.
#[derive(Clone, PartialEq, Eq, Debug)]
pub struct Frame {
    pub opcode: Opcode,
    pub body: Vec<u8>,
}

/// A consistency level carried by a query or execute request; this layer
/// never branches on it.
#[derive(Clone, Copy, PartialEq, Eq, Structural, Debug)]
pub enum Consistency {
    Any,
    One,
    Two,
    Three,
    Quorum,
    All,
    LocalQuorum,
    EachQuorum,
    Serial,
    LocalSerial,
    LocalOne,
}

/// The immutable parameter block of a query-family request. Bound values and
/// the paging state are opaque byte strings to this layer.
#[derive(Clone, PartialEq, Eq, Debug)]
pub struct QueryParams {
    pub consistency: Consistency,
    pub values: Vec<Vec<u8>>,
    pub with_names: Option<bool>,
    pub page_size: Option<i32>,
    pub paging_state: Option<Vec<u8>>,
    pub serial_consistency: Option<Consistency>,
    pub timestamp: Option<i64>,
}

/// A full query request: the statement text together with its parameters.
#[derive(Clone, PartialEq, Eq, Debug)]
pub struct Query {
    pub query: String,
    pub params: QueryParams,
}

/// How the statements of a batch are applied.
#[derive(Clone, Copy, PartialEq, Eq, Structural, Debug)]
pub enum BatchType {
    Logged,
    Unlogged,
    Counter,
}

/// A pre-built batch of statements sent as one request.
#[derive(Clone, PartialEq, Eq, Debug)]
pub struct QueryBatch {
    pub batch_type: BatchType,
    pub consistency: Consistency,
    pub queries: Vec<String>,
}

/// A server-side event kind a listener can register for.
#[derive(Clone, Copy, PartialEq, Eq, Structural, Debug)]
pub enum SimpleServerEvent {
    TopologyChange,
    StatusChange,
    SchemaChange,
}

/// One request descriptor, the unit in which this layer hands work to the
/// collaborating codec and transport. The sent log of a transport is a
/// sequence of these values.
#[derive(Clone, PartialEq, Eq, Debug)]
pub enum Request {
    Options,
    Startup { compression: Compression },
    AuthResponse { token: Vec<u8> },
    Prepare { query: String, flags: QueryFlags },
    Execute { id: Vec<u8>, params: QueryParams, flags: QueryFlags },
    Query { request: Query, flags: QueryFlags },
    Batch { batch: QueryBatch, flags: QueryFlags },
    Register { events: Vec<SimpleServerEvent> },
}

} // verus!
