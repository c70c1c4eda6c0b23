//! The `FUSE_SETLK` and `FUSE_SETLKW` operations: acquire or release a lock.

use vstd::prelude::*;

use crate::debug::{ascii_of, spec_debug_struct, to_chars, DebugStruct};

use crate::decode::{node_id, spec_take};
use crate::error::RequestError;
use crate::kernel::{
    FuseInHeader,
    FuseLkIn,
    FUSE_IN_HEADER_SIZE,
    FUSE_LK_FLOCK,
    FUSE_LK_IN_SIZE,
    FUSE_SETLK,
    FUSE_SETLKW,
};
use crate::lock::{decode, decode_range, spec_decode_lock, FuseFileLock, Lock, LockMode, LockOwner, LockRange, F_UNLCK};
use crate::node::NodeId;
use crate::server::{FuseLayout, FuseReply, FuseReplySender, FuseRequest, FuseSocket, SendError};

verus! {

// SetlkRequest {{{

/// The lock record inside a `fuse_lk_in` body.
pub open spec fn spec_lk_record(raw: FuseLkIn) -> FuseFileLock {
    FuseFileLock { start: raw.lk_start, end: raw.lk_end, lock_type: raw.lk_type, pid: raw.lk_pid }
}

/// What a `FUSE_SETLK` or `FUSE_SETLKW` request holds: its node and its
/// `fuse_lk_in` body. A record of type `F_UNLCK` releases a range; any other
/// must request a shared or exclusive lock.
pub open spec fn spec_parse_setlk(h: FuseInHeader, bytes: Seq<u8>) -> Result<(u64, FuseLkIn), RequestError> {
    if h.opcode != FUSE_SETLK && h.opcode != FUSE_SETLKW {
        Err(RequestError::OpcodeMismatch)
    } else if h.nodeid == 0 {
        Err(RequestError::MissingNodeId)
    } else {
        match spec_take(bytes, FUSE_IN_HEADER_SIZE as int, FUSE_LK_IN_SIZE as int) {
            None => Err(RequestError::UnexpectedEof),
            Some((body, _)) => {
                let raw = FuseLkIn::spec_parse(body);
                if raw.lk_type == F_UNLCK {
                    Ok((h.nodeid, raw))
                } else {
                    match spec_decode_lock(spec_lk_record(raw)) {
                        Err(e) => Err(RequestError::LockError(e)),
                        Ok(_) => Ok((h.nodeid, raw)),
                    }
                }
            },
        }
    }
}

/// Whether `l` is the lock a `fuse_lk_in` body describes: for `F_UNLCK` an
/// unlock of the record's range with no process, else the shared or
/// exclusive lock the record requests, with its process where it names one.
pub open spec fn spec_setlk_lock(raw: FuseLkIn, l: Lock) -> bool {
    if raw.lk_type == F_UNLCK {
        l == (Lock {
            mode: LockMode(F_UNLCK),
            range: LockRange { start: raw.lk_start, end: raw.lk_end },
            process_id: None,
        })
    } else {
        &&& spec_decode_lock(spec_lk_record(raw)) matches Ok((mode, range, pid))
        &&& l.mode.0 == mode
        &&& l.range == range
        &&& (l.process_id is Some <==> pid != 0)
        &&& (l.process_id matches Some(p) ==> p@ == pid)
    }
}

/// Request type for `FUSE_SETLK` and `FUSE_SETLKW`.
#[derive(Clone, Copy, Debug)]
pub struct SetlkRequest {
    node_id: NodeId,
    may_block: bool,
    raw: FuseLkIn,
    lock: Option<Lock>,
    lock_range: LockRange,
}

impl SetlkRequest {
    #[verifier::type_invariant]
    spec fn inv(self) -> bool {
        &&& self.lock_range == (LockRange { start: self.raw.lk_start, end: self.raw.lk_end })
        &&& self.lock matches Some(l) && spec_setlk_lock(self.raw, l)
    }

    /// The node ID, whether the request may wait, and the raw body.
    pub closed spec fn spec_fields(self) -> (u64, bool, FuseLkIn) {
        (self.node_id@, self.may_block, self.raw)
    }

    /// Decodes a `FUSE_SETLK` or `FUSE_SETLKW` request.
    pub fn from_fuse_request(request: &FuseRequest) -> (r: Result<SetlkRequest, RequestError>)
        ensures
            match spec_parse_setlk(request.inner.spec_header(), request.inner.spec_bytes()) {
                Ok(v) => r matches Ok(req) && req.spec_fields() == (
                    v.0,
                    request.inner.spec_header().opcode == FUSE_SETLKW,
                    v.1,
                ),
                Err(e) => r matches Err(e2) && e2 == e,
            },
    {
        let mut dec = request.decoder();
        let header = dec.header();
        if header.opcode != FUSE_SETLKW {
            dec.expect_opcode(FUSE_SETLK)?;
        }
        let node_id = node_id(header.nodeid)?;
        let b = dec.next_bytes(FUSE_LK_IN_SIZE as u32)?;
        let raw = FuseLkIn::parse(b);
        let record = FuseFileLock {
            start: raw.lk_start,
            end: raw.lk_end,
            lock_type: raw.lk_type,
            pid: raw.lk_pid,
        };
        let lock;
        let lock_range;
        if raw.lk_type == F_UNLCK {
            lock_range = decode_range(&record);
            lock = Some(Lock { mode: LockMode(F_UNLCK), range: lock_range, process_id: None });
        } else {
            let set_lock = match decode(&record) {
                Ok(l) => l,
                Err(e) => return Err(RequestError::LockError(e)),
            };
            lock = Some(set_lock);
            lock_range = set_lock.range();
        }
        Ok(SetlkRequest { node_id, may_block: header.opcode == FUSE_SETLKW, raw, lock, lock_range })
    }

    /// The node whose lock changes.
    pub fn node_id(&self) -> (r: NodeId)
        ensures
            r@ == self.spec_fields().0,
    {
        self.node_id
    }

    /// The handle of the open file.
    pub fn handle(&self) -> (r: u64)
        ensures
            r == self.spec_fields().2.fh,
    {
        self.raw.fh
    }

    /// Whether the request may wait for a conflicting lock to be released
    /// (`FUSE_SETLKW`).
    pub fn may_block(&self) -> (r: bool)
        ensures
            r == self.spec_fields().1,
    {
        self.may_block
    }

    /// The owner of the lock.
    pub fn owner(&self) -> (r: LockOwner)
        ensures
            r == LockOwner(self.spec_fields().2.owner),
    {
        LockOwner(self.raw.owner)
    }

    /// The lock the request names: a shared or exclusive lock to acquire,
    /// or an `F_UNLCK` lock over the range to release.
    pub fn lock(&self) -> (r: Option<Lock>)
        ensures
            r matches Some(l) && spec_setlk_lock(self.spec_fields().2, l),
    {
        proof {
            use_type_invariant(self);
        }
        self.lock
    }

    /// The range the lock covers.
    pub fn lock_range(&self) -> (r: LockRange)
        ensures
            r == (LockRange { start: self.spec_fields().2.lk_start, end: self.spec_fields().2.lk_end }),
    {
        proof {
            use_type_invariant(self);
        }
        self.lock_range
    }

    /// The `FUSE_LK_*` flags of the request.
    pub fn flags(&self) -> (r: SetlkRequestFlags)
        ensures
            r.bits() == self.spec_fields().2.lk_flags,
    {
        SetlkRequestFlags { bits: self.raw.lk_flags }
    }
}

// }}}

// SetlkRequestFlags {{{

/// The `FUSE_LK_*` flags of a lock request.
#[derive(Clone, Copy, Debug, PartialEq, Eq, Structural)]
pub struct SetlkRequestFlags {
    bits: u32,
}

/// One of the `FUSE_LK_*` flags.
#[allow(non_camel_case_types)]
#[derive(Clone, Copy, Debug, PartialEq, Eq, Structural)]
pub enum SetlkRequestFlag {
    /// The lock was requested with `flock` rather than `fcntl`.
    LK_FLOCK,
}

impl SetlkRequestFlag {
    /// The bit of this flag.
    pub open spec fn spec_mask(self) -> u32 {
        match self {
            SetlkRequestFlag::LK_FLOCK => FUSE_LK_FLOCK,
        }
    }

    /// The bit of this flag.
    pub fn mask(&self) -> (r: u32)
        ensures
            r == self.spec_mask(),
    {
        match self {
            SetlkRequestFlag::LK_FLOCK => FUSE_LK_FLOCK,
        }
    }
}

impl SetlkRequestFlags {
    /// The raw bits.
    pub closed spec fn bits(self) -> u32 {
        self.bits
    }

    /// Flags with the raw bits `bits`.
    pub fn from_bits(bits: u32) -> (r: SetlkRequestFlags)
        ensures
            r.bits() == bits,
    {
        SetlkRequestFlags { bits }
    }

    /// The raw bits.
    pub fn to_bits(&self) -> (r: u32)
        ensures
            r == self.bits(),
    {
        self.bits
    }

    /// Whether `flag` is set.
    pub fn get(&self, flag: SetlkRequestFlag) -> (r: bool)
        ensures
            r == (self.bits() & flag.spec_mask() != 0),
    {
        self.bits & flag.mask() != 0
    }
}

// }}}

// SetlkResponse {{{

/// Response type for `FUSE_SETLK` and `FUSE_SETLKW`: an empty reply.
#[derive(Clone, Copy, Debug)]
pub struct SetlkResponse {
    _priv: (),
}

impl SetlkResponse {
    /// An empty response.
    pub fn new() -> (r: SetlkResponse) {
        SetlkResponse { _priv: () }
    }
}

impl FuseReply for SetlkResponse {
    open spec fn spec_payload(&self, layout: FuseLayout) -> Seq<u8> {
        Seq::empty()
    }

    fn send_to<S: FuseSocket>(&self, reply_sender: FuseReplySender<'_, S>) -> Result<
        (),
        SendError<S::Error>,
    > {
        reply_sender.inner.send_0(0)
    }
}

// }}}


impl SetlkResponse {
    /// The `{:#?}` rendering of this value: the bare type name.
    pub fn debug_string(&self) -> (r: String)
        ensures
            r@ == to_chars(spec_debug_struct(ascii_of("SetlkResponse"@), Seq::empty())),
    {
        proof {
            reveal_strlit("SetlkResponse");
        }
        DebugStruct::new("SetlkResponse").finish()
    }
}

} // verus!
