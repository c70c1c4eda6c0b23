//! The `FUSE_READLINK` operation: read the target of a symbolic link.

use vstd::prelude::*;

use crate::decode::{node_id, spec_require_node_id};
use crate::error::RequestError;
use crate::kernel::{FuseInHeader, FUSE_READLINK};
use crate::node::NodeId;
use crate::node_name::NodeName;
use crate::server::{FuseLayout, FuseReply, FuseReplySender, FuseRequest, FuseSocket, SendError};

use crate::debug::{ascii_of, spec_debug_struct, to_chars, DebugStruct};
use crate::ascii::spec_dec;

verus! {

/// What a `FUSE_READLINK` request holds: the node ID of the link.
pub open spec fn spec_parse_readlink(h: FuseInHeader) -> Result<u64, RequestError> {
    if h.opcode != FUSE_READLINK {
        Err(RequestError::OpcodeMismatch)
    } else {
        spec_require_node_id(h.nodeid)
    }
}

/// Request type for `FUSE_READLINK`.
#[derive(Clone, Copy, Debug)]
pub struct ReadlinkRequest {
    node_id: NodeId,
}

impl View for ReadlinkRequest {
    type V = u64;

    closed spec fn view(&self) -> u64 {
        self.node_id@
    }
}

impl ReadlinkRequest {
    /// Decodes a `FUSE_READLINK` request.
    pub fn from_fuse_request(request: &FuseRequest) -> (r: Result<ReadlinkRequest, RequestError>)
        ensures
            match spec_parse_readlink(request.inner.spec_header()) {
                Ok(v) => r matches Ok(req) && req@ == v,
                Err(e) => r matches Err(e2) && e2 == e,
            },
    {
        let dec = request.decoder();
        dec.expect_opcode(FUSE_READLINK)?;
        Ok(ReadlinkRequest { node_id: node_id(dec.header().nodeid)? })
    }

    /// The node ID of the link.
    pub fn node_id(&self) -> (r: NodeId)
        ensures
            r@ == self@,
    {
        self.node_id
    }
}

/// Response type for `FUSE_READLINK`: the link target.
#[derive(Clone, Copy, Debug)]
pub struct ReadlinkResponse<'a> {
    target: &'a [u8],
}

impl<'a> ReadlinkResponse<'a> {
    /// The target bytes.
    pub closed spec fn spec_target(self) -> Seq<u8> {
        self.target@
    }

    /// A response naming the target `target`, given as a string without its
    /// `NUL` terminator.
    pub fn new(target: &'a [u8]) -> (r: ReadlinkResponse<'a>)
        ensures
            r.spec_target() == target@,
    {
        ReadlinkResponse { target }
    }

    /// A response naming the target `target`.
    pub fn from_name(target: &NodeName<'a>) -> (r: ReadlinkResponse<'a>)
        ensures
            r.spec_target() == target.view_bytes(),
    {
        ReadlinkResponse { target: target.as_bytes() }
    }

    /// The target bytes, as sent in the reply body.
    pub fn target(&self) -> (r: &'a [u8])
        ensures
            r@ == self.spec_target(),
    {
        self.target
    }
}

impl FuseReply for ReadlinkResponse<'_> {
    open spec fn spec_payload(&self, layout: FuseLayout) -> Seq<u8> {
        self.spec_target()
    }

    fn send_to<S: FuseSocket>(&self, reply_sender: FuseReplySender<'_, S>) -> Result<
        (),
        SendError<S::Error>,
    > {
        reply_sender.inner.send_1(self.target)
    }
}


impl ReadlinkRequest {
    /// The `{:#?}` rendering of this value.
    pub fn debug_string(&self) -> (r: String)
        ensures
            r@ == to_chars(spec_debug_struct(ascii_of("ReadlinkRequest"@), seq![(ascii_of("node_id"@), spec_dec(self@ as nat))])),
    {
        proof {
            reveal_strlit("ReadlinkRequest");
            reveal_strlit("node_id");
        }
        let d = DebugStruct::new("ReadlinkRequest");
        let d = d.field("node_id", crate::debug::dec_text(self.node_id.get()).as_slice());
        proof {
            assert(d.spec_fields() =~= seq![(ascii_of("node_id"@), spec_dec(self@ as nat))]);
        }
        d.finish()
    }
}

impl<'a> ReadlinkResponse<'a> {
    /// The `{:#?}` rendering of this value.
    pub fn debug_string(&self) -> (r: String)
        ensures
            r@ == to_chars(spec_debug_struct(ascii_of("ReadlinkResponse"@), seq![(ascii_of("target"@), crate::debug::spec_quoted_text(self.spec_target()))])),
    {
        proof {
            reveal_strlit("ReadlinkResponse");
            reveal_strlit("target");
        }
        let d = DebugStruct::new("ReadlinkResponse");
        let d = d.field("target", crate::debug::quoted_text(self.target).as_slice());
        proof {
            assert(d.spec_fields() =~= seq![(ascii_of("target"@), crate::debug::spec_quoted_text(self.spec_target()))]);
        }
        d.finish()
    }
}

} // verus!
