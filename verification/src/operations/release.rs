//! The `FUSE_RELEASE` operation: close an open file.

use vstd::prelude::*;

use crate::decode::{node_id, spec_take, Request};
use crate::error::RequestError;
use crate::kernel::{
    FuseInHeader,
    FuseReleaseIn,
    FUSE_IN_HEADER_SIZE,
    FUSE_RELEASE,
    FUSE_RELEASE_FLOCK_UNLOCK,
    FUSE_RELEASE_IN_SIZE,
    FUSE_RELEASE_IN_V7P1_SIZE,
    FUSE_ROOT_ID,
};
use crate::lock::LockOwner;
use crate::node::NodeId;
use crate::server::{CuseRequest, FuseRequest};
use crate::wire::{read_u32, read_u64};

use crate::debug::{ascii_of, spec_debug_struct, to_chars, DebugStruct};
use crate::ascii::spec_dec;

verus! {

/// What a release request holds once decoded.
pub struct ReleaseFields {
    /// The node ID of the file, or the root ID where the request names none.
    pub node_id: u64,
    /// The handle chosen when the file was opened.
    pub handle: u64,
    /// The lock owner whose `flock` locks are released, if any.
    pub lock_owner: Option<u64>,
    /// The flags the file was opened with.
    pub open_flags: u32,
}

/// The size of the body of a release request at protocol minor version
/// `version_minor`: the lock owner arrived in 7.8.
pub open spec fn spec_release_body_size(version_minor: u32) -> int {
    if version_minor >= 8 {
        FUSE_RELEASE_IN_SIZE as int
    } else {
        FUSE_RELEASE_IN_V7P1_SIZE as int
    }
}

/// The fields of a release body `body` at protocol minor version
/// `version_minor`, in a request whose header names node `nodeid`.
pub open spec fn spec_release_fields(nodeid: u64, body: Seq<u8>, version_minor: u32) -> ReleaseFields {
    let raw = FuseReleaseIn::spec_parse(body);
    ReleaseFields {
        node_id: if nodeid == 0 { FUSE_ROOT_ID } else { nodeid },
        handle: raw.fh,
        lock_owner: if version_minor >= 8 && raw.release_flags & FUSE_RELEASE_FLOCK_UNLOCK != 0 {
            Some(raw.lock_owner)
        } else {
            None
        },
        open_flags: raw.flags,
    }
}

/// What a release request with opcode `opcode` holds. A CUSE request names
/// no node; a FUSE request must.
pub open spec fn spec_parse_release_like(
    h: FuseInHeader,
    bytes: Seq<u8>,
    opcode: u32,
    version_minor: u32,
    is_cuse: bool,
) -> Result<ReleaseFields, RequestError> {
    if h.opcode != opcode {
        Err(RequestError::OpcodeMismatch)
    } else if !is_cuse && h.nodeid == 0 {
        Err(RequestError::MissingNodeId)
    } else {
        match spec_take(bytes, FUSE_IN_HEADER_SIZE as int, spec_release_body_size(version_minor)) {
            None => Err(RequestError::UnexpectedEof),
            Some((body, _)) => Ok(spec_release_fields(h.nodeid, body, version_minor)),
        }
    }
}

/// Decodes the body shared by `FUSE_RELEASE` and `FUSE_RELEASEDIR`.
pub fn decode_release_like(
    request: &Request,
    opcode: u32,
    version_minor: u32,
    is_cuse: bool,
) -> (r: Result<(u64, u64, Option<LockOwner>, u32), RequestError>)
    ensures
        match spec_parse_release_like(
            request.spec_header(),
            request.spec_bytes(),
            opcode,
            version_minor,
            is_cuse,
        ) {
            Ok(v) => r matches Ok((n, fh, owner, flags)) && {
                &&& n == v.node_id
                &&& fh == v.handle
                &&& flags == v.open_flags
                &&& match v.lock_owner {
                    Some(o) => owner == Some(LockOwner(o)),
                    None => owner is None,
                }
            },
            Err(e) => r matches Err(e2) && e2 == e,
        },
{
    let mut dec = request.decoder();
    dec.expect_opcode(opcode)?;
    let header = dec.header();
    if !is_cuse {
        node_id(header.nodeid)?;
    }
    let n = if header.nodeid == 0 { FUSE_ROOT_ID } else { header.nodeid };
    if version_minor >= 8 {
        let b = dec.next_bytes(FUSE_RELEASE_IN_SIZE as u32)?;
        let raw = FuseReleaseIn::parse(b);
        let owner = if raw.release_flags & FUSE_RELEASE_FLOCK_UNLOCK != 0 {
            Some(LockOwner(raw.lock_owner))
        } else {
            None
        };
        Ok((n, raw.fh, owner, raw.flags))
    } else {
        let b = dec.next_bytes(FUSE_RELEASE_IN_V7P1_SIZE as u32)?;
        Ok((n, read_u64(b, 0), None, read_u32(b, 8)))
    }
}

/// Request type for `FUSE_RELEASE`.
#[derive(Clone, Copy, Debug)]
pub struct ReleaseRequest {
    node_id: u64,
    handle: u64,
    lock_owner: Option<LockOwner>,
    open_flags: u32,
}

impl ReleaseRequest {
    /// The decoded fields of this request.
    pub closed spec fn spec_fields(self) -> ReleaseFields {
        ReleaseFields {
            node_id: self.node_id,
            handle: self.handle,
            lock_owner: match self.lock_owner {
                Some(o) => Some(o.0),
                None => None,
            },
            open_flags: self.open_flags,
        }
    }

    /// Decodes a `FUSE_RELEASE` request of a CUSE session.
    pub fn from_cuse_request(request: &CuseRequest) -> (r: Result<ReleaseRequest, RequestError>)
        ensures
            match spec_parse_release_like(
                request.inner.spec_header(),
                request.inner.spec_bytes(),
                FUSE_RELEASE,
                request.layout.spec_version_minor(),
                true,
            ) {
                Ok(v) => r matches Ok(req) && req.spec_fields() == v,
                Err(e) => r matches Err(e2) && e2 == e,
            },
    {
        let (node_id, handle, lock_owner, open_flags) = decode_release_like(
            &request.inner,
            FUSE_RELEASE,
            request.layout.version_minor(),
            true,
        )?;
        Ok(ReleaseRequest { node_id, handle, lock_owner, open_flags })
    }

    /// Decodes a `FUSE_RELEASE` request of a FUSE session.
    pub fn from_fuse_request(request: &FuseRequest) -> (r: Result<ReleaseRequest, RequestError>)
        ensures
            match spec_parse_release_like(
                request.inner.spec_header(),
                request.inner.spec_bytes(),
                FUSE_RELEASE,
                request.layout.spec_version_minor(),
                false,
            ) {
                Ok(v) => r matches Ok(req) && req.spec_fields() == v,
                Err(e) => r matches Err(e2) && e2 == e,
            },
    {
        let (node_id, handle, lock_owner, open_flags) = decode_release_like(
            &request.inner,
            FUSE_RELEASE,
            request.layout.version_minor(),
            false,
        )?;
        Ok(ReleaseRequest { node_id, handle, lock_owner, open_flags })
    }

    /// The file being released; the root ID where the request names none.
    pub fn node_id(&self) -> (r: NodeId)
        ensures
            r@ == (if self.spec_fields().node_id == 0 { FUSE_ROOT_ID } else { self.spec_fields().node_id }),
    {
        match NodeId::new(self.node_id) {
            Some(n) => n,
            None => NodeId::root(),
        }
    }

    /// The handle chosen when the file was opened, or zero if none was.
    pub fn handle(&self) -> (r: u64)
        ensures
            r == self.spec_fields().handle,
    {
        self.handle
    }

    /// The owner whose `flock` locks are to be released, if any.
    pub fn lock_owner(&self) -> (r: Option<LockOwner>)
        ensures
            match self.spec_fields().lock_owner {
                Some(o) => r == Some(LockOwner(o)),
                None => r is None,
            },
    {
        self.lock_owner
    }

    /// The flags the file was opened with.
    pub fn open_flags(&self) -> (r: u32)
        ensures
            r == self.spec_fields().open_flags,
    {
        self.open_flags
    }
}


impl ReleaseRequest {
    /// The `{:#?}` rendering of this value.
    pub fn debug_string(&self) -> (r: String)
        ensures
            r@ == to_chars(spec_debug_struct(ascii_of("ReleaseRequest"@), seq![(ascii_of("node_id"@), spec_dec(self.spec_fields().node_id as nat)), (ascii_of("handle"@), spec_dec(self.spec_fields().handle as nat)), (ascii_of("lock_owner"@), crate::debug::spec_lock_owner_text(match self.spec_fields().lock_owner { Some(o) => Some(LockOwner(o)), None => None })), (ascii_of("open_flags"@), crate::debug::spec_hex_text(self.spec_fields().open_flags as nat, 8))])),
    {
        proof {
            reveal_strlit("ReleaseRequest");
            reveal_strlit("node_id");
            reveal_strlit("handle");
            reveal_strlit("lock_owner");
            reveal_strlit("open_flags");
        }
        let d = DebugStruct::new("ReleaseRequest");
        let d = d.field("node_id", crate::debug::dec_text(self.node_id).as_slice());
        let d = d.field("handle", crate::debug::dec_text(self.handle).as_slice());
        let d = d.field("lock_owner", crate::debug::lock_owner_text(self.lock_owner).as_slice());
        let d = d.field("open_flags", crate::debug::hex_text(self.open_flags as u64, 8).as_slice());
        proof {
            assert(d.spec_fields() =~= seq![(ascii_of("node_id"@), spec_dec(self.spec_fields().node_id as nat)), (ascii_of("handle"@), spec_dec(self.spec_fields().handle as nat)), (ascii_of("lock_owner"@), crate::debug::spec_lock_owner_text(match self.spec_fields().lock_owner { Some(o) => Some(LockOwner(o)), None => None })), (ascii_of("open_flags"@), crate::debug::spec_hex_text(self.spec_fields().open_flags as nat, 8))]);
        }
        d.finish()
    }
}

} // verus!
