//! The `FUSE_RELEASEDIR` operation: close an open directory.

use vstd::prelude::*;

use crate::error::RequestError;
use crate::kernel::FUSE_RELEASEDIR;
use crate::lock::LockOwner;
use crate::node::NodeId;
use crate::operations::release::{decode_release_like, spec_parse_release_like, ReleaseFields};
use crate::server::{FuseLayout, FuseReply, FuseReplySender, FuseRequest, FuseSocket, SendError};

use crate::debug::{ascii_of, spec_debug_struct, to_chars, DebugStruct};
use crate::ascii::spec_dec;

verus! {

/// Request type for `FUSE_RELEASEDIR`.
#[derive(Clone, Copy, Debug)]
pub struct ReleasedirRequest {
    node_id: NodeId,
    handle: u64,
    lock_owner: Option<LockOwner>,
    open_flags: u32,
}

impl ReleasedirRequest {
    /// The decoded fields of this request.
    pub closed spec fn spec_fields(self) -> ReleaseFields {
        ReleaseFields {
            node_id: self.node_id@,
            handle: self.handle,
            lock_owner: match self.lock_owner {
                Some(o) => Some(o.0),
                None => None,
            },
            open_flags: self.open_flags,
        }
    }

    /// Decodes a `FUSE_RELEASEDIR` request.
    pub fn from_fuse_request(request: &FuseRequest) -> (r: Result<ReleasedirRequest, RequestError>)
        ensures
            match spec_parse_release_like(
                request.inner.spec_header(),
                request.inner.spec_bytes(),
                FUSE_RELEASEDIR,
                request.layout.spec_version_minor(),
                false,
            ) {
                Ok(v) => r matches Ok(req) && req.spec_fields() == v,
                Err(e) => r matches Err(e2) && e2 == e,
            },
    {
        let (n, handle, lock_owner, open_flags) = decode_release_like(
            &request.inner,
            FUSE_RELEASEDIR,
            request.layout.version_minor(),
            false,
        )?;
        let node_id = match NodeId::new(n) {
            Some(x) => x,
            None => NodeId::root(),
        };
        Ok(ReleasedirRequest { node_id, handle, lock_owner, open_flags })
    }

    /// The directory being released.
    pub fn node_id(&self) -> (r: NodeId)
        ensures
            r@ == self.spec_fields().node_id,
    {
        self.node_id
    }

    /// The handle chosen when the directory was opened, or zero if none was.
    pub fn handle(&self) -> (r: u64)
        ensures
            r == self.spec_fields().handle,
    {
        self.handle
    }

    /// The owner whose `flock` locks are to be released, if any.
    pub fn lock_owner(&self) -> (r: Option<LockOwner>)
        ensures
            match self.spec_fields().lock_owner {
                Some(o) => r == Some(LockOwner(o)),
                None => r is None,
            },
    {
        self.lock_owner
    }

    /// The flags the directory was opened with.
    pub fn open_flags(&self) -> (r: u32)
        ensures
            r == self.spec_fields().open_flags,
    {
        self.open_flags
    }
}

/// Response type for `FUSE_RELEASEDIR`: an empty reply.
#[derive(Clone, Copy, Debug)]
pub struct ReleasedirResponse {
    _priv: (),
}

impl ReleasedirResponse {
    /// An empty response.
    pub fn new() -> (r: ReleasedirResponse) {
        ReleasedirResponse { _priv: () }
    }
}

impl FuseReply for ReleasedirResponse {
    open spec fn spec_payload(&self, layout: FuseLayout) -> Seq<u8> {
        Seq::empty()
    }

    fn send_to<S: FuseSocket>(&self, reply_sender: FuseReplySender<'_, S>) -> Result<
        (),
        SendError<S::Error>,
    > {
        reply_sender.inner.send_0(0)
    }
}


impl ReleasedirRequest {
    /// The `{:#?}` rendering of this value.
    pub fn debug_string(&self) -> (r: String)
        ensures
            r@ == to_chars(spec_debug_struct(ascii_of("ReleasedirRequest"@), seq![(ascii_of("node_id"@), spec_dec(self.spec_fields().node_id as nat)), (ascii_of("handle"@), spec_dec(self.spec_fields().handle as nat)), (ascii_of("lock_owner"@), crate::debug::spec_lock_owner_text(match self.spec_fields().lock_owner { Some(o) => Some(LockOwner(o)), None => None })), (ascii_of("open_flags"@), crate::debug::spec_hex_text(self.spec_fields().open_flags as nat, 8))])),
    {
        proof {
            reveal_strlit("ReleasedirRequest");
            reveal_strlit("node_id");
            reveal_strlit("handle");
            reveal_strlit("lock_owner");
            reveal_strlit("open_flags");
        }
        let d = DebugStruct::new("ReleasedirRequest");
        let d = d.field("node_id", crate::debug::dec_text(self.node_id().get()).as_slice());
        let d = d.field("handle", crate::debug::dec_text(self.handle).as_slice());
        let d = d.field("lock_owner", crate::debug::lock_owner_text(self.lock_owner).as_slice());
        let d = d.field("open_flags", crate::debug::hex_text(self.open_flags as u64, 8).as_slice());
        proof {
            assert(d.spec_fields() =~= seq![(ascii_of("node_id"@), spec_dec(self.spec_fields().node_id as nat)), (ascii_of("handle"@), spec_dec(self.spec_fields().handle as nat)), (ascii_of("lock_owner"@), crate::debug::spec_lock_owner_text(match self.spec_fields().lock_owner { Some(o) => Some(LockOwner(o)), None => None })), (ascii_of("open_flags"@), crate::debug::spec_hex_text(self.spec_fields().open_flags as nat, 8))]);
        }
        d.finish()
    }
}

impl ReleasedirResponse {
    /// The `{:#?}` rendering of this value.
    pub fn debug_string(&self) -> (r: String)
        ensures
            r@ == to_chars(spec_debug_struct(ascii_of("ReleasedirResponse"@), Seq::empty())),
    {
        proof {
            reveal_strlit("ReleasedirResponse");
        }
        let d = DebugStruct::new("ReleasedirResponse");
        d.finish()
    }
}

} // verus!
