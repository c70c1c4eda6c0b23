//! The `FUSE_SETATTR` operation: change a node's attributes.

use vstd::prelude::*;

use crate::decode::{check_timespec_nanos, node_id, spec_take};
use crate::error::RequestError;
use crate::file_mode::FileMode;
use crate::kernel::{
    FuseInHeader,
    FuseSetattrIn,
    FATTR_ATIME,
    FATTR_ATIME_NOW,
    FATTR_CTIME,
    FATTR_FH,
    FATTR_GID,
    FATTR_LOCKOWNER,
    FATTR_MODE,
    FATTR_MTIME,
    FATTR_MTIME_NOW,
    FATTR_SIZE,
    FATTR_UID,
    FUSE_IN_HEADER_SIZE,
    FUSE_SETATTR,
    FUSE_SETATTR_IN_SIZE,
};
use crate::lock::LockOwner;
use crate::node::NodeId;
use crate::server::FuseRequest;
use crate::time::{UnixTime, MAX_NANOS};

use crate::debug::{ascii_of, spec_debug_struct, to_chars, DebugStruct};
use crate::ascii::spec_dec;

verus! {

/// Whether the timestamps a setattr body marks valid have valid nanoseconds.
pub open spec fn spec_setattr_times_valid(raw: FuseSetattrIn) -> bool {
    &&& raw.valid & FATTR_ATIME != 0 ==> raw.atimensec <= MAX_NANOS
    &&& raw.valid & FATTR_MTIME != 0 ==> raw.mtimensec <= MAX_NANOS
    &&& raw.valid & FATTR_CTIME != 0 ==> raw.ctimensec <= MAX_NANOS
}

/// What a `FUSE_SETATTR` request holds: its node and its `fuse_setattr_in`
/// body, whose marked timestamps must have valid nanoseconds.
pub open spec fn spec_parse_setattr(h: FuseInHeader, bytes: Seq<u8>) -> Result<(u64, FuseSetattrIn), RequestError> {
    if h.opcode != FUSE_SETATTR {
        Err(RequestError::OpcodeMismatch)
    } else if h.nodeid == 0 {
        Err(RequestError::MissingNodeId)
    } else {
        match spec_take(bytes, FUSE_IN_HEADER_SIZE as int, FUSE_SETATTR_IN_SIZE as int) {
            None => Err(RequestError::UnexpectedEof),
            Some((body, _)) => {
                let raw = FuseSetattrIn::spec_parse(body);
                if spec_setattr_times_valid(raw) {
                    Ok((h.nodeid, raw))
                } else {
                    Err(RequestError::TimestampOverflow)
                }
            },
        }
    }
}

/// The value `v` if `bit` is set in `valid`.
pub open spec fn spec_if_valid<T>(valid: u32, bit: u32, v: T) -> Option<T> {
    if valid & bit != 0 {
        Some(v)
    } else {
        None
    }
}

/// Request type for `FUSE_SETATTR`.
#[derive(Clone, Copy, Debug)]
pub struct SetattrRequest {
    node_id: NodeId,
    raw: FuseSetattrIn,
}

impl SetattrRequest {
    #[verifier::type_invariant]
    spec fn inv(self) -> bool {
        spec_setattr_times_valid(self.raw)
    }

    /// The node ID and the raw body of this request.
    pub closed spec fn spec_fields(self) -> (u64, FuseSetattrIn) {
        (self.node_id@, self.raw)
    }

    /// Decodes a `FUSE_SETATTR` request.
    pub fn from_fuse_request(request: &FuseRequest) -> (r: Result<SetattrRequest, RequestError>)
        ensures
            match spec_parse_setattr(request.inner.spec_header(), request.inner.spec_bytes()) {
                Ok(v) => r matches Ok(req) && req.spec_fields() == v,
                Err(e) => r matches Err(e2) && e2 == e,
            },
    {
        let mut dec = request.decoder();
        dec.expect_opcode(FUSE_SETATTR)?;
        let node_id = node_id(dec.header().nodeid)?;
        let b = dec.next_bytes(FUSE_SETATTR_IN_SIZE as u32)?;
        let raw = FuseSetattrIn::parse(b);
        if raw.valid & FATTR_ATIME != 0 {
            check_timespec_nanos(raw.atimensec)?;
        }
        if raw.valid & FATTR_MTIME != 0 {
            check_timespec_nanos(raw.mtimensec)?;
        }
        if raw.valid & FATTR_CTIME != 0 {
            check_timespec_nanos(raw.ctimensec)?;
        }
        Ok(SetattrRequest { node_id, raw })
    }

    /// The node whose attributes change.
    pub fn node_id(&self) -> (r: NodeId)
        ensures
            r@ == self.spec_fields().0,
    {
        self.node_id
    }

    /// The handle of the open file, if the request was made through one.
    pub fn handle(&self) -> (r: Option<u64>)
        ensures
            r == spec_if_valid(self.spec_fields().1.valid, FATTR_FH, self.spec_fields().1.fh),
    {
        if self.raw.valid & FATTR_FH != 0 { Some(self.raw.fh) } else { None }
    }

    /// The new size, if the size changes.
    pub fn size(&self) -> (r: Option<u64>)
        ensures
            r == spec_if_valid(self.spec_fields().1.valid, FATTR_SIZE, self.spec_fields().1.size),
    {
        if self.raw.valid & FATTR_SIZE != 0 { Some(self.raw.size) } else { None }
    }

    /// The owner of the locks held by the caller, if the request names one.
    pub fn lock_owner(&self) -> (r: Option<LockOwner>)
        ensures
            r == spec_if_valid(
                self.spec_fields().1.valid,
                FATTR_LOCKOWNER,
                LockOwner(self.spec_fields().1.lock_owner),
            ),
    {
        if self.raw.valid & FATTR_LOCKOWNER != 0 {
            Some(LockOwner(self.raw.lock_owner))
        } else {
            None
        }
    }

    /// The new access time, if it is set to a given time.
    pub fn atime(&self) -> (r: Option<UnixTime>)
        ensures
            r is Some <==> self.spec_fields().1.valid & FATTR_ATIME != 0,
            r matches Some(t) ==> t.spec_seconds() == self.spec_fields().1.atime as i64
                && t.spec_nanos() == self.spec_fields().1.atimensec,
    {
        proof {
            use_type_invariant(self);
        }
        if self.raw.valid & FATTR_ATIME != 0 {
            UnixTime::from_timespec(self.raw.atime, self.raw.atimensec)
        } else {
            None
        }
    }

    /// Whether the access time is set to the current time.
    pub fn atime_now(&self) -> (r: bool)
        ensures
            r == (self.spec_fields().1.valid & FATTR_ATIME_NOW != 0),
    {
        self.raw.valid & FATTR_ATIME_NOW != 0
    }

    /// The new modification time, if it is set to a given time.
    pub fn mtime(&self) -> (r: Option<UnixTime>)
        ensures
            r is Some <==> self.spec_fields().1.valid & FATTR_MTIME != 0,
            r matches Some(t) ==> t.spec_seconds() == self.spec_fields().1.mtime as i64
                && t.spec_nanos() == self.spec_fields().1.mtimensec,
    {
        proof {
            use_type_invariant(self);
        }
        if self.raw.valid & FATTR_MTIME != 0 {
            UnixTime::from_timespec(self.raw.mtime, self.raw.mtimensec)
        } else {
            None
        }
    }

    /// Whether the modification time is set to the current time.
    pub fn mtime_now(&self) -> (r: bool)
        ensures
            r == (self.spec_fields().1.valid & FATTR_MTIME_NOW != 0),
    {
        self.raw.valid & FATTR_MTIME_NOW != 0
    }

    /// The new change time, if it is set.
    pub fn ctime(&self) -> (r: Option<UnixTime>)
        ensures
            r is Some <==> self.spec_fields().1.valid & FATTR_CTIME != 0,
            r matches Some(t) ==> t.spec_seconds() == self.spec_fields().1.ctime as i64
                && t.spec_nanos() == self.spec_fields().1.ctimensec,
    {
        proof {
            use_type_invariant(self);
        }
        if self.raw.valid & FATTR_CTIME != 0 {
            UnixTime::from_timespec(self.raw.ctime, self.raw.ctimensec)
        } else {
            None
        }
    }

    /// The new mode, if it changes.
    pub fn mode(&self) -> (r: Option<FileMode>)
        ensures
            r is Some <==> self.spec_fields().1.valid & FATTR_MODE != 0,
            r matches Some(m) ==> m@ == self.spec_fields().1.mode,
    {
        if self.raw.valid & FATTR_MODE != 0 {
            Some(FileMode::new(self.raw.mode))
        } else {
            None
        }
    }

    /// The new owning user, if it changes.
    pub fn user_id(&self) -> (r: Option<u32>)
        ensures
            r == spec_if_valid(self.spec_fields().1.valid, FATTR_UID, self.spec_fields().1.uid),
    {
        if self.raw.valid & FATTR_UID != 0 { Some(self.raw.uid) } else { None }
    }

    /// The new owning group, if it changes.
    pub fn group_id(&self) -> (r: Option<u32>)
        ensures
            r == spec_if_valid(self.spec_fields().1.valid, FATTR_GID, self.spec_fields().1.gid),
    {
        if self.raw.valid & FATTR_GID != 0 { Some(self.raw.gid) } else { None }
    }
}


impl SetattrRequest {
    /// The `{:#?}` rendering of this value.
    pub fn debug_string(&self) -> (r: String)
        ensures
            r@ == to_chars(spec_debug_struct(ascii_of("SetattrRequest"@), seq![(ascii_of("node_id"@), spec_dec(self.spec_fields().0 as nat)), (ascii_of("handle"@), crate::debug::spec_opt_dec_text(spec_if_valid(self.spec_fields().1.valid, FATTR_FH, self.spec_fields().1.fh))), (ascii_of("size"@), crate::debug::spec_opt_dec_text(spec_if_valid(self.spec_fields().1.valid, FATTR_SIZE, self.spec_fields().1.size))), (ascii_of("lock_owner"@), crate::debug::spec_lock_owner_text(spec_if_valid(self.spec_fields().1.valid, FATTR_LOCKOWNER, LockOwner(self.spec_fields().1.lock_owner)))), (ascii_of("atime"@), crate::debug::spec_opt_time_parts_text(self.spec_fields().1.valid & FATTR_ATIME != 0, self.spec_fields().1.atime as i64, self.spec_fields().1.atimensec)), (ascii_of("atime_now"@), crate::debug::spec_bool_text(self.spec_fields().1.valid & FATTR_ATIME_NOW != 0)), (ascii_of("mtime"@), crate::debug::spec_opt_time_parts_text(self.spec_fields().1.valid & FATTR_MTIME != 0, self.spec_fields().1.mtime as i64, self.spec_fields().1.mtimensec)), (ascii_of("mtime_now"@), crate::debug::spec_bool_text(self.spec_fields().1.valid & FATTR_MTIME_NOW != 0)), (ascii_of("ctime"@), crate::debug::spec_opt_time_parts_text(self.spec_fields().1.valid & FATTR_CTIME != 0, self.spec_fields().1.ctime as i64, self.spec_fields().1.ctimensec)), (ascii_of("mode"@), (if self.spec_fields().1.valid & FATTR_MODE != 0 { crate::debug::spec_some_text(seq![48u8, 111u8] + crate::ascii::spec_oct(self.spec_fields().1.mode as nat)) } else { crate::debug::spec_none_text() })), (ascii_of("user_id"@), crate::debug::spec_opt_dec32_text(spec_if_valid(self.spec_fields().1.valid, FATTR_UID, self.spec_fields().1.uid))), (ascii_of("group_id"@), crate::debug::spec_opt_dec32_text(spec_if_valid(self.spec_fields().1.valid, FATTR_GID, self.spec_fields().1.gid)))])),
    {
        proof {
            reveal_strlit("SetattrRequest");
            reveal_strlit("node_id");
            reveal_strlit("handle");
            reveal_strlit("size");
            reveal_strlit("lock_owner");
            reveal_strlit("atime");
            reveal_strlit("atime_now");
            reveal_strlit("mtime");
            reveal_strlit("mtime_now");
            reveal_strlit("ctime");
            reveal_strlit("mode");
            reveal_strlit("user_id");
            reveal_strlit("group_id");
        }
        let d = DebugStruct::new("SetattrRequest");
        let d = d.field("node_id", crate::debug::dec_text(self.node_id.get()).as_slice());
        let d = d.field("handle", crate::debug::opt_dec_text(self.handle()).as_slice());
        let d = d.field("size", crate::debug::opt_dec_text(self.size()).as_slice());
        let d = d.field("lock_owner", crate::debug::lock_owner_text(self.lock_owner()).as_slice());
        let d = d.field("atime", crate::debug::opt_time_text(self.atime()).as_slice());
        let d = d.field("atime_now", crate::debug::bool_text(self.atime_now()).as_slice());
        let d = d.field("mtime", crate::debug::opt_time_text(self.mtime()).as_slice());
        let d = d.field("mtime_now", crate::debug::bool_text(self.mtime_now()).as_slice());
        let d = d.field("ctime", crate::debug::opt_time_text(self.ctime()).as_slice());
        let d = d.field("mode", crate::debug::opt_mode_text(self.mode()).as_slice());
        let d = d.field("user_id", crate::debug::opt_dec32_text(self.user_id()).as_slice());
        let d = d.field("group_id", crate::debug::opt_dec32_text(self.group_id()).as_slice());
        proof {
            assert(d.spec_fields() =~= seq![(ascii_of("node_id"@), spec_dec(self.spec_fields().0 as nat)), (ascii_of("handle"@), crate::debug::spec_opt_dec_text(spec_if_valid(self.spec_fields().1.valid, FATTR_FH, self.spec_fields().1.fh))), (ascii_of("size"@), crate::debug::spec_opt_dec_text(spec_if_valid(self.spec_fields().1.valid, FATTR_SIZE, self.spec_fields().1.size))), (ascii_of("lock_owner"@), crate::debug::spec_lock_owner_text(spec_if_valid(self.spec_fields().1.valid, FATTR_LOCKOWNER, LockOwner(self.spec_fields().1.lock_owner)))), (ascii_of("atime"@), crate::debug::spec_opt_time_parts_text(self.spec_fields().1.valid & FATTR_ATIME != 0, self.spec_fields().1.atime as i64, self.spec_fields().1.atimensec)), (ascii_of("atime_now"@), crate::debug::spec_bool_text(self.spec_fields().1.valid & FATTR_ATIME_NOW != 0)), (ascii_of("mtime"@), crate::debug::spec_opt_time_parts_text(self.spec_fields().1.valid & FATTR_MTIME != 0, self.spec_fields().1.mtime as i64, self.spec_fields().1.mtimensec)), (ascii_of("mtime_now"@), crate::debug::spec_bool_text(self.spec_fields().1.valid & FATTR_MTIME_NOW != 0)), (ascii_of("ctime"@), crate::debug::spec_opt_time_parts_text(self.spec_fields().1.valid & FATTR_CTIME != 0, self.spec_fields().1.ctime as i64, self.spec_fields().1.ctimensec)), (ascii_of("mode"@), (if self.spec_fields().1.valid & FATTR_MODE != 0 { crate::debug::spec_some_text(seq![48u8, 111u8] + crate::ascii::spec_oct(self.spec_fields().1.mode as nat)) } else { crate::debug::spec_none_text() })), (ascii_of("user_id"@), crate::debug::spec_opt_dec32_text(spec_if_valid(self.spec_fields().1.valid, FATTR_UID, self.spec_fields().1.uid))), (ascii_of("group_id"@), crate::debug::spec_opt_dec32_text(spec_if_valid(self.spec_fields().1.valid, FATTR_GID, self.spec_fields().1.gid)))]);
        }
        d.finish()
    }
}

} // verus!
