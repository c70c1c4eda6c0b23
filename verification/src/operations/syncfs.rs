//! The `FUSE_SYNCFS` operation: flush the whole filesystem.

use vstd::prelude::*;

use crate::debug::{ascii_of, spec_debug_struct, to_chars, DebugStruct};

use crate::decode::spec_take;
use crate::error::RequestError;
use crate::kernel::{FuseInHeader, FUSE_IN_HEADER_SIZE, FUSE_SYNCFS, FUSE_SYNCFS_IN_SIZE};
use crate::server::{FuseLayout, FuseReply, FuseReplySender, FuseRequest, FuseSocket, SendError};

verus! {

/// Whether a `FUSE_SYNCFS` request is well formed: it has the right opcode
/// and a whole (padding-only) body.
pub open spec fn spec_parse_syncfs(h: FuseInHeader, bytes: Seq<u8>) -> Result<(), RequestError> {
    if h.opcode != FUSE_SYNCFS {
        Err(RequestError::OpcodeMismatch)
    } else if spec_take(bytes, FUSE_IN_HEADER_SIZE as int, FUSE_SYNCFS_IN_SIZE as int) is None {
        Err(RequestError::UnexpectedEof)
    } else {
        Ok(())
    }
}

/// Request type for `FUSE_SYNCFS`.
#[derive(Clone, Copy, Debug)]
pub struct SyncfsRequest {
    _priv: (),
}

impl SyncfsRequest {
    /// Decodes a `FUSE_SYNCFS` request.
    pub fn from_fuse_request(request: &FuseRequest) -> (r: Result<SyncfsRequest, RequestError>)
        ensures
            match spec_parse_syncfs(request.inner.spec_header(), request.inner.spec_bytes()) {
                Ok(_) => r is Ok,
                Err(e) => r matches Err(e2) && e2 == e,
            },
    {
        let mut dec = request.decoder();
        dec.expect_opcode(FUSE_SYNCFS)?;
        let _body = dec.next_bytes(FUSE_SYNCFS_IN_SIZE as u32)?;
        Ok(SyncfsRequest { _priv: () })
    }
}

/// Response type for `FUSE_SYNCFS`: an empty reply.
#[derive(Clone, Copy, Debug)]
pub struct SyncfsResponse {
    _priv: (),
}

impl SyncfsResponse {
    /// An empty response.
    pub fn new() -> (r: SyncfsResponse) {
        SyncfsResponse { _priv: () }
    }
}

impl FuseReply for SyncfsResponse {
    open spec fn spec_payload(&self, layout: FuseLayout) -> Seq<u8> {
        Seq::empty()
    }

    fn send_to<S: FuseSocket>(&self, reply_sender: FuseReplySender<'_, S>) -> Result<
        (),
        SendError<S::Error>,
    > {
        reply_sender.inner.send_0(0)
    }
}


impl SyncfsRequest {
    /// The `{:#?}` rendering of this value: the bare type name.
    pub fn debug_string(&self) -> (r: String)
        ensures
            r@ == to_chars(spec_debug_struct(ascii_of("SyncfsRequest"@), Seq::empty())),
    {
        proof {
            reveal_strlit("SyncfsRequest");
        }
        DebugStruct::new("SyncfsRequest").finish()
    }
}

impl SyncfsResponse {
    /// The `{:#?}` rendering of this value: the bare type name.
    pub fn debug_string(&self) -> (r: String)
        ensures
            r@ == to_chars(spec_debug_struct(ascii_of("SyncfsResponse"@), Seq::empty())),
    {
        proof {
            reveal_strlit("SyncfsResponse");
        }
        DebugStruct::new("SyncfsResponse").finish()
    }
}

} // verus!
