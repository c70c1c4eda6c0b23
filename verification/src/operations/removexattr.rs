//! The `FUSE_REMOVEXATTR` operation: remove an extended attribute.

use vstd::prelude::*;

use crate::decode::{node_id, spec_require_node_id, spec_take_cstr, to_bytes_without_nul};
use crate::error::RequestError;
use crate::kernel::{FuseInHeader, FUSE_IN_HEADER_SIZE, FUSE_REMOVEXATTR};
use crate::node::NodeId;
use crate::server::{FuseLayout, FuseReply, FuseReplySender, FuseRequest, FuseSocket, SendError};
use crate::xattr::{spec_check_xattr_name, XattrName};

use crate::debug::{ascii_of, spec_debug_struct, to_chars, DebugStruct};
use crate::ascii::spec_dec;

verus! {

/// What a `FUSE_REMOVEXATTR` request holds: the node and the attribute name.
pub open spec fn spec_parse_removexattr(h: FuseInHeader, bytes: Seq<u8>) -> Result<
    (u64, Seq<u8>),
    RequestError,
> {
    if h.opcode != FUSE_REMOVEXATTR {
        Err(RequestError::OpcodeMismatch)
    } else {
        match spec_require_node_id(h.nodeid) {
            Err(e) => Err(e),
            Ok(node) => match spec_take_cstr(bytes, FUSE_IN_HEADER_SIZE as int) {
                None => Err(RequestError::UnexpectedEof),
                Some((name, _)) => match spec_check_xattr_name(name) {
                    Err(e) => Err(RequestError::XattrNameError(e)),
                    Ok(()) => Ok((node, name)),
                },
            },
        }
    }
}

/// Request type for `FUSE_REMOVEXATTR`.
#[derive(Clone, Copy, Debug)]
pub struct RemovexattrRequest<'a> {
    node_id: NodeId,
    name: XattrName<'a>,
}

impl View for RemovexattrRequest<'_> {
    type V = (u64, Seq<u8>);

    closed spec fn view(&self) -> (u64, Seq<u8>) {
        (self.node_id@, self.name.view_bytes())
    }
}

impl<'a> RemovexattrRequest<'a> {
    /// Decodes a `FUSE_REMOVEXATTR` request.
    pub fn from_fuse_request(request: &FuseRequest<'a>) -> (r: Result<RemovexattrRequest<'a>, RequestError>)
        ensures
            match spec_parse_removexattr(request.inner.spec_header(), request.inner.spec_bytes()) {
                Ok(v) => r matches Ok(req) && req@ == v,
                Err(e) => r matches Err(e2) && e2 == e,
            },
    {
        let mut dec = request.decoder();
        dec.expect_opcode(FUSE_REMOVEXATTR)?;
        let node = node_id(dec.header().nodeid)?;
        let name_bytes = dec.next_nul_terminated_bytes()?;
        match XattrName::from_bytes(to_bytes_without_nul(name_bytes)) {
            Ok(name) => Ok(RemovexattrRequest { node_id: node, name }),
            Err(e) => Err(RequestError::XattrNameError(e)),
        }
    }

    /// The node holding the attribute.
    pub fn node_id(&self) -> (r: NodeId)
        ensures
            r@ == self@.0,
    {
        self.node_id
    }

    /// The name of the attribute.
    pub fn name(&self) -> (r: XattrName<'a>)
        ensures
            r.view_bytes() == self@.1,
    {
        self.name
    }
}

/// Response type for `FUSE_REMOVEXATTR`: an empty reply.
#[derive(Clone, Copy, Debug)]
pub struct RemovexattrResponse {
    _priv: (),
}

impl RemovexattrResponse {
    /// An empty response.
    pub fn new() -> (r: RemovexattrResponse) {
        RemovexattrResponse { _priv: () }
    }
}

impl FuseReply for RemovexattrResponse {
    open spec fn spec_payload(&self, layout: FuseLayout) -> Seq<u8> {
        Seq::empty()
    }

    fn send_to<S: FuseSocket>(&self, reply_sender: FuseReplySender<'_, S>) -> Result<
        (),
        SendError<S::Error>,
    > {
        reply_sender.inner.send_0(0)
    }
}


impl<'a> RemovexattrRequest<'a> {
    /// The `{:#?}` rendering of this value.
    pub fn debug_string(&self) -> (r: String)
        ensures
            r@ == to_chars(spec_debug_struct(ascii_of("RemovexattrRequest"@), seq![(ascii_of("node_id"@), spec_dec(self@.0 as nat)), (ascii_of("name"@), crate::debug::spec_quoted_text(self@.1))])),
    {
        proof {
            reveal_strlit("RemovexattrRequest");
            reveal_strlit("node_id");
            reveal_strlit("name");
        }
        let d = DebugStruct::new("RemovexattrRequest");
        let d = d.field("node_id", crate::debug::dec_text(self.node_id.get()).as_slice());
        let d = d.field("name", crate::debug::quoted_text(self.name.as_bytes()).as_slice());
        proof {
            assert(d.spec_fields() =~= seq![(ascii_of("node_id"@), spec_dec(self@.0 as nat)), (ascii_of("name"@), crate::debug::spec_quoted_text(self@.1))]);
        }
        d.finish()
    }
}

impl RemovexattrResponse {
    /// The `{:#?}` rendering of this value.
    pub fn debug_string(&self) -> (r: String)
        ensures
            r@ == to_chars(spec_debug_struct(ascii_of("RemovexattrResponse"@), Seq::empty())),
    {
        proof {
            reveal_strlit("RemovexattrResponse");
        }
        let d = DebugStruct::new("RemovexattrResponse");
        d.finish()
    }
}

} // verus!
