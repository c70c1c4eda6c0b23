//! The `FUSE_RMDIR` operation: remove a directory.

use vstd::prelude::*;

use crate::decode::{node_id, spec_require_node_id, spec_take_node_name};
use crate::error::RequestError;
use crate::kernel::{FuseInHeader, FUSE_IN_HEADER_SIZE, FUSE_RMDIR};
use crate::node::NodeId;
use crate::node_name::NodeName;
use crate::server::{FuseLayout, FuseReply, FuseReplySender, FuseRequest, FuseSocket, SendError};

use crate::debug::{ascii_of, spec_debug_struct, to_chars, DebugStruct};
use crate::ascii::spec_dec;

verus! {

/// What a `FUSE_RMDIR` request holds: the parent directory and the name of
/// the directory to remove.
pub open spec fn spec_parse_rmdir(h: FuseInHeader, bytes: Seq<u8>) -> Result<(u64, Seq<u8>), RequestError> {
    if h.opcode != FUSE_RMDIR {
        Err(RequestError::OpcodeMismatch)
    } else {
        match spec_require_node_id(h.nodeid) {
            Err(e) => Err(e),
            Ok(parent) => match spec_take_node_name(bytes, FUSE_IN_HEADER_SIZE as int) {
                Err(e) => Err(e),
                Ok((name, _)) => Ok((parent, name)),
            },
        }
    }
}

/// Request type for `FUSE_RMDIR`.
#[derive(Clone, Copy, Debug)]
pub struct RmdirRequest<'a> {
    parent_id: NodeId,
    name: NodeName<'a>,
}

impl View for RmdirRequest<'_> {
    type V = (u64, Seq<u8>);

    closed spec fn view(&self) -> (u64, Seq<u8>) {
        (self.parent_id@, self.name.view_bytes())
    }
}

impl<'a> RmdirRequest<'a> {
    /// Decodes a `FUSE_RMDIR` request.
    pub fn from_fuse_request(request: &FuseRequest<'a>) -> (r: Result<RmdirRequest<'a>, RequestError>)
        ensures
            match spec_parse_rmdir(request.inner.spec_header(), request.inner.spec_bytes()) {
                Ok(v) => r matches Ok(req) && req@ == v,
                Err(e) => r matches Err(e2) && e2 == e,
            },
    {
        let mut dec = request.decoder();
        dec.expect_opcode(FUSE_RMDIR)?;
        let parent_id = node_id(dec.header().nodeid)?;
        let name = dec.next_node_name()?;
        Ok(RmdirRequest { parent_id, name })
    }

    /// The directory holding the directory.
    pub fn parent_id(&self) -> (r: NodeId)
        ensures
            r@ == self@.0,
    {
        self.parent_id
    }

    /// The name of the directory.
    pub fn name(&self) -> (r: NodeName<'a>)
        ensures
            r.view_bytes() == self@.1,
    {
        self.name
    }
}

/// Response type for `FUSE_RMDIR`: an empty reply.
#[derive(Clone, Copy, Debug)]
pub struct RmdirResponse {
    _priv: (),
}

impl RmdirResponse {
    /// An empty response.
    pub fn new() -> (r: RmdirResponse) {
        RmdirResponse { _priv: () }
    }
}

impl FuseReply for RmdirResponse {
    open spec fn spec_payload(&self, layout: FuseLayout) -> Seq<u8> {
        Seq::empty()
    }

    fn send_to<S: FuseSocket>(&self, reply_sender: FuseReplySender<'_, S>) -> Result<
        (),
        SendError<S::Error>,
    > {
        reply_sender.inner.send_0(0)
    }
}


impl<'a> RmdirRequest<'a> {
    /// The `{:#?}` rendering of this value.
    pub fn debug_string(&self) -> (r: String)
        ensures
            r@ == to_chars(spec_debug_struct(ascii_of("RmdirRequest"@), seq![(ascii_of("parent_id"@), spec_dec(self@.0 as nat)), (ascii_of("name"@), crate::debug::spec_quoted_text(self@.1))])),
    {
        proof {
            reveal_strlit("RmdirRequest");
            reveal_strlit("parent_id");
            reveal_strlit("name");
        }
        let d = DebugStruct::new("RmdirRequest");
        let d = d.field("parent_id", crate::debug::dec_text(self.parent_id.get()).as_slice());
        let d = d.field("name", crate::debug::quoted_text(self.name.as_bytes()).as_slice());
        proof {
            assert(d.spec_fields() =~= seq![(ascii_of("parent_id"@), spec_dec(self@.0 as nat)), (ascii_of("name"@), crate::debug::spec_quoted_text(self@.1))]);
        }
        d.finish()
    }
}

impl RmdirResponse {
    /// The `{:#?}` rendering of this value.
    pub fn debug_string(&self) -> (r: String)
        ensures
            r@ == to_chars(spec_debug_struct(ascii_of("RmdirResponse"@), Seq::empty())),
    {
        proof {
            reveal_strlit("RmdirResponse");
        }
        let d = DebugStruct::new("RmdirResponse");
        d.finish()
    }
}

} // verus!
