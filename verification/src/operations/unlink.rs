//! The `FUSE_UNLINK` operation: remove a non-directory node.

use vstd::prelude::*;

use crate::decode::{node_id, spec_require_node_id, spec_take_node_name};
use crate::error::RequestError;
use crate::kernel::{FuseInHeader, FUSE_IN_HEADER_SIZE, FUSE_UNLINK};
use crate::node::NodeId;
use crate::node_name::NodeName;
use crate::server::FuseRequest;

verus! {

/// What a `FUSE_UNLINK` request holds: the parent directory and the name of
/// the node to remove.
pub open spec fn spec_parse_unlink(h: FuseInHeader, bytes: Seq<u8>) -> Result<(u64, Seq<u8>), RequestError> {
    if h.opcode != FUSE_UNLINK {
        Err(RequestError::OpcodeMismatch)
    } else {
        match spec_require_node_id(h.nodeid) {
            Err(e) => Err(e),
            Ok(parent) => match spec_take_node_name(bytes, FUSE_IN_HEADER_SIZE as int) {
                Err(e) => Err(e),
                Ok((name, _)) => Ok((parent, name)),
            },
        }
    }
}

/// Request type for `FUSE_UNLINK`.
#[derive(Clone, Copy, Debug)]
pub struct UnlinkRequest<'a> {
    parent_id: NodeId,
    name: NodeName<'a>,
}

impl View for UnlinkRequest<'_> {
    type V = (u64, Seq<u8>);

    closed spec fn view(&self) -> (u64, Seq<u8>) {
        (self.parent_id@, self.name.view_bytes())
    }
}

impl<'a> UnlinkRequest<'a> {
    /// Decodes a `FUSE_UNLINK` request.
    pub fn from_fuse_request(request: &FuseRequest<'a>) -> (r: Result<UnlinkRequest<'a>, RequestError>)
        ensures
            match spec_parse_unlink(request.inner.spec_header(), request.inner.spec_bytes()) {
                Ok(v) => r matches Ok(req) && req@ == v,
                Err(e) => r matches Err(e2) && e2 == e,
            },
    {
        let mut dec = request.decoder();
        dec.expect_opcode(FUSE_UNLINK)?;
        let parent_id = node_id(dec.header().nodeid)?;
        let name = dec.next_node_name()?;
        Ok(UnlinkRequest { parent_id, name })
    }

    /// The directory holding the node.
    pub fn parent_id(&self) -> (r: NodeId)
        ensures
            r@ == self@.0,
    {
        self.parent_id
    }

    /// The name of the node.
    pub fn name(&self) -> (r: NodeName<'a>)
        ensures
            r.view_bytes() == self@.1,
    {
        self.name
    }
}

} // verus!
