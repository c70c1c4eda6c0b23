//! File locks carried in `FUSE_SETLK` requests.

use vstd::prelude::*;

use crate::error::LockError;
use crate::process_id::ProcessId;

verus! {

/// The kind of a lock, as the raw `fcntl` lock type.
#[derive(Clone, Copy, Debug, PartialEq, Eq, Structural, Hash, PartialOrd, Ord)]
pub struct LockMode(pub u32);

/// Shared (or 'read') locks may be held by any number of owners.
pub const F_RDLCK: u32 = 0;

/// Exclusive (or 'write') locks may be held only by a single owner.
pub const F_WRLCK: u32 = 1;

/// Absence or removal of a lock.
pub const F_UNLCK: u32 = 2;

/// The owner of a lock, as chosen by the client.
#[derive(Clone, Copy, Debug, PartialEq, Eq, Structural, Hash, PartialOrd, Ord)]
pub struct LockOwner(pub u64);

/// The byte range covered by a lock, from `start` to `end` inclusive.
#[derive(Clone, Copy, Debug, PartialEq, Eq, Structural)]
pub struct LockRange {
    pub start: u64,
    pub end: u64,
}

/// A lock held or requested on a range of a file.
#[derive(Clone, Copy, Debug, PartialEq, Eq, Structural)]
pub struct Lock {
    pub mode: LockMode,
    pub range: LockRange,
    pub process_id: Option<ProcessId>,
}

impl Lock {
    /// The range covered by this lock.
    pub fn range(&self) -> (r: LockRange)
        ensures
            r == self.range,
    {
        self.range
    }
}

/// The lock record inside a request (`fuse_file_lock`).
#[derive(Clone, Copy, Debug, PartialEq, Eq, Structural)]
pub struct FuseFileLock {
    pub start: u64,
    pub end: u64,
    pub lock_type: u32,
    pub pid: u32,
}

/// The range of a lock record.
pub fn decode_range(raw: &FuseFileLock) -> (r: LockRange)
    ensures
        r == (LockRange { start: raw.start, end: raw.end }),
{
    LockRange { start: raw.start, end: raw.end }
}

/// The lock a record requests: shared or exclusive, anything else is refused.
pub open spec fn spec_decode_lock(raw: FuseFileLock) -> Result<(u32, LockRange, u32), LockError> {
    if raw.lock_type == F_RDLCK || raw.lock_type == F_WRLCK {
        Ok((raw.lock_type, LockRange { start: raw.start, end: raw.end }, raw.pid))
    } else {
        Err(LockError::UnsupportedMode)
    }
}

/// Decodes the lock a record requests.
pub fn decode(raw: &FuseFileLock) -> (r: Result<Lock, LockError>)
    ensures
        r is Ok <==> spec_decode_lock(*raw) is Ok,
        r matches Err(e) ==> spec_decode_lock(*raw) == Err::<(u32, LockRange, u32), _>(e),
        r matches Ok(l) ==> {
            &&& spec_decode_lock(*raw) matches Ok((mode, range, pid))
            &&& l.mode == LockMode(mode)
            &&& l.range == range
            &&& (l.process_id is Some <==> pid != 0)
            &&& (l.process_id matches Some(p) ==> p@ == pid)
        },
{
    if raw.lock_type != F_RDLCK && raw.lock_type != F_WRLCK {
        return Err(LockError::UnsupportedMode);
    }
    Ok(Lock { mode: LockMode(raw.lock_type), range: decode_range(raw), process_id: ProcessId::new(raw.pid) })
}

} // verus!
