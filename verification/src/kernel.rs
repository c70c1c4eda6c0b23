//! The FUSE kernel ABI: protocol version, opcodes, flag bits, and the layout
//! of the fixed-size records exchanged with the kernel.

use vstd::prelude::*;

use crate::wire::{enc32, enc64, le32, le64, lemma_u32_roundtrip, lemma_u64_roundtrip, push_u32, push_u64, read_u32, read_u64};

verus! {

/// Major version of the FUSE protocol implemented by this library.
pub const FUSE_KERNEL_VERSION: u32 = 7;

/// Latest minor version of the FUSE protocol implemented by this library.
pub const FUSE_KERNEL_MINOR_VERSION: u32 = 36;

/// Node ID of the filesystem root.
pub const FUSE_ROOT_ID: u64 = 1;

/// Minimum size of a buffer able to hold any request.
pub const FUSE_MIN_READ_BUFFER: usize = 8192;

// Opcodes {{{

pub const FUSE_LOOKUP: u32 = 1;
pub const FUSE_FORGET: u32 = 2;
pub const FUSE_GETATTR: u32 = 3;
pub const FUSE_SETATTR: u32 = 4;
pub const FUSE_READLINK: u32 = 5;
pub const FUSE_SYMLINK: u32 = 6;
pub const FUSE_MKNOD: u32 = 8;
pub const FUSE_MKDIR: u32 = 9;
pub const FUSE_UNLINK: u32 = 10;
pub const FUSE_RMDIR: u32 = 11;
pub const FUSE_RENAME: u32 = 12;
pub const FUSE_LINK: u32 = 13;
pub const FUSE_OPEN: u32 = 14;
pub const FUSE_READ: u32 = 15;
pub const FUSE_WRITE: u32 = 16;
pub const FUSE_STATFS: u32 = 17;
pub const FUSE_RELEASE: u32 = 18;
pub const FUSE_FSYNC: u32 = 20;
pub const FUSE_SETXATTR: u32 = 21;
pub const FUSE_GETXATTR: u32 = 22;
pub const FUSE_LISTXATTR: u32 = 23;
pub const FUSE_REMOVEXATTR: u32 = 24;
pub const FUSE_FLUSH: u32 = 25;
pub const FUSE_INIT: u32 = 26;
pub const FUSE_OPENDIR: u32 = 27;
pub const FUSE_READDIR: u32 = 28;
pub const FUSE_RELEASEDIR: u32 = 29;
pub const FUSE_FSYNCDIR: u32 = 30;
pub const FUSE_GETLK: u32 = 31;
pub const FUSE_SETLK: u32 = 32;
pub const FUSE_SETLKW: u32 = 33;
pub const FUSE_ACCESS: u32 = 34;
pub const FUSE_CREATE: u32 = 35;
pub const FUSE_INTERRUPT: u32 = 36;
pub const FUSE_BMAP: u32 = 37;
pub const FUSE_DESTROY: u32 = 38;
pub const FUSE_IOCTL: u32 = 39;
pub const FUSE_POLL: u32 = 40;
pub const FUSE_NOTIFY_REPLY: u32 = 41;
pub const FUSE_BATCH_FORGET: u32 = 42;
pub const FUSE_FALLOCATE: u32 = 43;
pub const FUSE_READDIRPLUS: u32 = 44;
pub const FUSE_RENAME2: u32 = 45;
pub const FUSE_LSEEK: u32 = 46;
pub const FUSE_COPY_FILE_RANGE: u32 = 47;
pub const FUSE_SYNCFS: u32 = 50;
pub const CUSE_INIT: u32 = 4096;

// }}}

// Flag bits {{{

pub const FUSE_RELEASE_FLUSH: u32 = 1;
pub const FUSE_RELEASE_FLOCK_UNLOCK: u32 = 2;

pub const FUSE_WRITE_CACHE: u32 = 1;
pub const FUSE_WRITE_LOCKOWNER: u32 = 2;
pub const FUSE_WRITE_KILL_SUIDGID: u32 = 4;

pub const FUSE_LK_FLOCK: u32 = 1;

pub const FUSE_SETXATTR_ACL_KILL_SGID: u32 = 1;

pub const FATTR_MODE: u32 = 1;
pub const FATTR_UID: u32 = 2;
pub const FATTR_GID: u32 = 4;
pub const FATTR_SIZE: u32 = 8;
pub const FATTR_ATIME: u32 = 16;
pub const FATTR_MTIME: u32 = 32;
pub const FATTR_FH: u32 = 64;
pub const FATTR_ATIME_NOW: u32 = 128;
pub const FATTR_MTIME_NOW: u32 = 256;
pub const FATTR_LOCKOWNER: u32 = 512;
pub const FATTR_CTIME: u32 = 1024;

/// `FUSE_INIT` flag: the server accepts writes larger than one page.
pub const FUSE_BIG_WRITES: u32 = 32;

/// `FUSE_INIT` flag: `FUSE_SETXATTR` requests carry the extended header.
pub const FUSE_SETXATTR_EXT: u32 = 0x2000_0000;

/// `CUSE_INIT` flag: the device allows unrestricted `ioctl` calls.
pub const CUSE_UNRESTRICTED_IOCTL: u32 = 1;

// }}}

// Record sizes {{{

pub const FUSE_IN_HEADER_SIZE: usize = 40;
pub const FUSE_OUT_HEADER_SIZE: usize = 16;
pub const FUSE_RELEASE_IN_SIZE: usize = 24;
pub const FUSE_RELEASE_IN_V7P1_SIZE: usize = 16;
pub const FUSE_WRITE_IN_SIZE: usize = 40;
pub const FUSE_WRITE_IN_V7P1_SIZE: usize = 24;
pub const FUSE_READ_IN_SIZE: usize = 40;
pub const FUSE_READ_IN_V7P1_SIZE: usize = 24;
pub const FUSE_SETATTR_IN_SIZE: usize = 88;
pub const FUSE_LK_IN_SIZE: usize = 48;
pub const FUSE_SETXATTR_IN_SIZE: usize = 16;
pub const FUSE_SETXATTR_IN_V7P1_SIZE: usize = 8;
pub const FUSE_RENAME_IN_SIZE: usize = 8;
pub const FUSE_RENAME2_IN_SIZE: usize = 16;
pub const FUSE_SYNCFS_IN_SIZE: usize = 8;
pub const FUSE_BMAP_IN_SIZE: usize = 16;
pub const FUSE_BMAP_OUT_SIZE: usize = 8;
pub const FUSE_WRITE_OUT_SIZE: usize = 8;
pub const FUSE_KSTATFS_SIZE: usize = 80;
pub const FUSE_COMPAT_STATFS_SIZE: usize = 48;
pub const FUSE_ATTR_SIZE: usize = 88;
pub const FUSE_ENTRY_OUT_SIZE: usize = 128;
pub const FUSE_COMPAT_ENTRY_OUT_SIZE: usize = 120;
pub const FUSE_DIRENT_SIZE: usize = 24;
pub const FUSE_DIRENTPLUS_SIZE: usize = 152;

// }}}

// FuseInHeader {{{

/// The header that starts every request.
#[derive(Clone, Copy, Debug, PartialEq, Eq)]
pub struct FuseInHeader {
    pub len: u32,
    pub opcode: u32,
    pub unique: u64,
    pub nodeid: u64,
    pub uid: u32,
    pub gid: u32,
    pub pid: u32,
    pub padding: u32,
}

impl FuseInHeader {
    /// The header stored at the start of `s`.
    pub open spec fn spec_parse(s: Seq<u8>) -> FuseInHeader {
        FuseInHeader {
            len: le32(s, 0),
            opcode: le32(s, 4),
            unique: le64(s, 8),
            nodeid: le64(s, 16),
            uid: le32(s, 24),
            gid: le32(s, 28),
            pid: le32(s, 32),
            padding: le32(s, 36),
        }
    }

    /// Reads the header stored at the start of `s`.
    pub fn parse(s: &[u8]) -> (h: FuseInHeader)
        requires
            s@.len() >= FUSE_IN_HEADER_SIZE,
        ensures
            h == FuseInHeader::spec_parse(s@),
    {
        FuseInHeader {
            len: read_u32(s, 0),
            opcode: read_u32(s, 4),
            unique: read_u64(s, 8),
            nodeid: read_u64(s, 16),
            uid: read_u32(s, 24),
            gid: read_u32(s, 28),
            pid: read_u32(s, 32),
            padding: read_u32(s, 36),
        }
    }

    /// The wire encoding of this header.
    pub open spec fn spec_encode(self) -> Seq<u8> {
        enc32(self.len) + enc32(self.opcode) + enc64(self.unique) + enc64(self.nodeid) + enc32(
            self.uid,
        ) + enc32(self.gid) + enc32(self.pid) + enc32(self.padding)
    }

    /// Appends the wire encoding of this header to `out`.
    pub fn encode(&self, out: &mut Vec<u8>)
        ensures
            final(out)@ == old(out)@ + self.spec_encode(),
    {
        push_u32(out, self.len);
        push_u32(out, self.opcode);
        push_u64(out, self.unique);
        push_u64(out, self.nodeid);
        push_u32(out, self.uid);
        push_u32(out, self.gid);
        push_u32(out, self.pid);
        push_u32(out, self.padding);
        proof {
            assert(final(out)@ =~= old(out)@ + self.spec_encode());
        }
    }
}

/// Decoding an encoded request header gives it back, whatever follows it.
pub proof fn lemma_in_header_roundtrip(h: FuseInHeader, rest: Seq<u8>)
    ensures
        h.spec_encode().len() == FUSE_IN_HEADER_SIZE,
        FuseInHeader::spec_parse(h.spec_encode() + rest) == h,
{
    lemma_u32_roundtrip(h.len);
    lemma_u32_roundtrip(h.opcode);
    lemma_u64_roundtrip(h.unique);
    lemma_u64_roundtrip(h.nodeid);
    lemma_u32_roundtrip(h.uid);
    lemma_u32_roundtrip(h.gid);
    lemma_u32_roundtrip(h.pid);
    lemma_u32_roundtrip(h.padding);
    let s = h.spec_encode() + rest;
    assert(s.subrange(0, 4) =~= enc32(h.len));
    assert(s.subrange(4, 8) =~= enc32(h.opcode));
    assert(s.subrange(8, 16) =~= enc64(h.unique));
    assert(s.subrange(16, 24) =~= enc64(h.nodeid));
    assert(s.subrange(24, 28) =~= enc32(h.uid));
    assert(s.subrange(28, 32) =~= enc32(h.gid));
    assert(s.subrange(32, 36) =~= enc32(h.pid));
    assert(s.subrange(36, 40) =~= enc32(h.padding));
}

// }}}

// FuseOutHeader {{{

/// The header that starts every reply.
#[derive(Clone, Copy, Debug, PartialEq, Eq)]
pub struct FuseOutHeader {
    pub len: u32,
    pub error: i32,
    pub unique: u64,
}

impl FuseOutHeader {
    /// The wire encoding of this header.
    pub open spec fn spec_encode(self) -> Seq<u8> {
        enc32(self.len) + enc32(self.error as u32) + enc64(self.unique)
    }

    /// Appends the wire encoding of this header to `out`.
    pub fn encode(&self, out: &mut Vec<u8>)
        ensures
            final(out)@ == old(out)@ + self.spec_encode(),
    {
        push_u32(out, self.len);
        push_u32(out, self.error as u32);
        push_u64(out, self.unique);
        proof {
            assert(final(out)@ =~= old(out)@ + self.spec_encode());
        }
    }

    /// The header stored at the start of `s`.
    pub open spec fn spec_parse(s: Seq<u8>) -> FuseOutHeader {
        FuseOutHeader { len: le32(s, 0), error: le32(s, 4) as i32, unique: le64(s, 8) }
    }

    /// Reads the header stored at the start of `s`.
    pub fn parse(s: &[u8]) -> (h: FuseOutHeader)
        requires
            s@.len() >= FUSE_OUT_HEADER_SIZE,
        ensures
            h == FuseOutHeader::spec_parse(s@),
    {
        FuseOutHeader { len: read_u32(s, 0), error: read_u32(s, 4) as i32, unique: read_u64(s, 8) }
    }
}

/// Decoding an encoded reply header gives it back, whatever follows it.
pub proof fn lemma_out_header_roundtrip(h: FuseOutHeader, rest: Seq<u8>)
    ensures
        h.spec_encode().len() == FUSE_OUT_HEADER_SIZE,
        FuseOutHeader::spec_parse(h.spec_encode() + rest) == h,
{
    lemma_u32_roundtrip(h.len);
    lemma_u32_roundtrip(h.error as u32);
    lemma_u64_roundtrip(h.unique);
    let s = h.spec_encode() + rest;
    assert(s.subrange(0, 4) =~= enc32(h.len));
    assert(s.subrange(4, 8) =~= enc32(h.error as u32));
    assert(s.subrange(8, 16) =~= enc64(h.unique));
    let e = h.error;
    assert((e as u32) as i32 == e) by (bit_vector);
}

// }}}

// Request bodies {{{

/// The body of `FUSE_RELEASE` and `FUSE_RELEASEDIR` (`fuse_release_in`).
#[derive(Clone, Copy, Debug, PartialEq, Eq)]
pub struct FuseReleaseIn {
    pub fh: u64,
    pub flags: u32,
    pub release_flags: u32,
    pub lock_owner: u64,
}

impl FuseReleaseIn {
    /// The record stored at the start of `s`.
    pub open spec fn spec_parse(s: Seq<u8>) -> FuseReleaseIn {
        FuseReleaseIn {
            fh: le64(s, 0),
            flags: le32(s, 8),
            release_flags: le32(s, 12),
            lock_owner: le64(s, 16),
        }
    }

    /// Reads the record stored at the start of `s`.
    pub fn parse(s: &[u8]) -> (r: FuseReleaseIn)
        requires
            s@.len() >= FUSE_RELEASE_IN_SIZE,
        ensures
            r == FuseReleaseIn::spec_parse(s@),
    {
        FuseReleaseIn {
            fh: read_u64(s, 0),
            flags: read_u32(s, 8),
            release_flags: read_u32(s, 12),
            lock_owner: read_u64(s, 16),
        }
    }

    /// The wire encoding of this record.
    pub open spec fn spec_encode(self) -> Seq<u8> {
        enc64(self.fh) + enc32(self.flags) + enc32(self.release_flags) + enc64(self.lock_owner)
    }

    /// Appends the wire encoding of this record to `out`.
    pub fn encode(&self, out: &mut Vec<u8>)
        ensures
            final(out)@ == old(out)@ + self.spec_encode(),
    {
        push_u64(out, self.fh);
        push_u32(out, self.flags);
        push_u32(out, self.release_flags);
        push_u64(out, self.lock_owner);
        proof {
            assert(final(out)@ =~= old(out)@ + self.spec_encode());
        }
    }
}

/// The fixed part of the body of `FUSE_WRITE` (`fuse_write_in`).
#[derive(Clone, Copy, Debug, PartialEq, Eq)]
pub struct FuseWriteIn {
    pub fh: u64,
    pub offset: u64,
    pub size: u32,
    pub write_flags: u32,
    pub lock_owner: u64,
    pub flags: u32,
    pub padding: u32,
}

impl FuseWriteIn {
    /// The record stored at the start of `s`.
    pub open spec fn spec_parse(s: Seq<u8>) -> FuseWriteIn {
        FuseWriteIn {
            fh: le64(s, 0),
            offset: le64(s, 8),
            size: le32(s, 16),
            write_flags: le32(s, 20),
            lock_owner: le64(s, 24),
            flags: le32(s, 32),
            padding: le32(s, 36),
        }
    }

    /// Reads the record stored at the start of `s`.
    pub fn parse(s: &[u8]) -> (r: FuseWriteIn)
        requires
            s@.len() >= FUSE_WRITE_IN_SIZE,
        ensures
            r == FuseWriteIn::spec_parse(s@),
    {
        FuseWriteIn {
            fh: read_u64(s, 0),
            offset: read_u64(s, 8),
            size: read_u32(s, 16),
            write_flags: read_u32(s, 20),
            lock_owner: read_u64(s, 24),
            flags: read_u32(s, 32),
            padding: read_u32(s, 36),
        }
    }

    /// The wire encoding of this record.
    pub open spec fn spec_encode(self) -> Seq<u8> {
        enc64(self.fh) + enc64(self.offset) + enc32(self.size) + enc32(self.write_flags) + enc64(self.lock_owner) + enc32(self.flags) + enc32(self.padding)
    }

    /// Appends the wire encoding of this record to `out`.
    pub fn encode(&self, out: &mut Vec<u8>)
        ensures
            final(out)@ == old(out)@ + self.spec_encode(),
    {
        push_u64(out, self.fh);
        push_u64(out, self.offset);
        push_u32(out, self.size);
        push_u32(out, self.write_flags);
        push_u64(out, self.lock_owner);
        push_u32(out, self.flags);
        push_u32(out, self.padding);
        proof {
            assert(final(out)@ =~= old(out)@ + self.spec_encode());
        }
    }
}

/// The body of read-like requests (`fuse_read_in`).
#[derive(Clone, Copy, Debug, PartialEq, Eq)]
pub struct FuseReadIn {
    pub fh: u64,
    pub offset: u64,
    pub size: u32,
    pub read_flags: u32,
    pub lock_owner: u64,
    pub flags: u32,
    pub padding: u32,
}

impl FuseReadIn {
    /// The record stored at the start of `s`.
    pub open spec fn spec_parse(s: Seq<u8>) -> FuseReadIn {
        FuseReadIn {
            fh: le64(s, 0),
            offset: le64(s, 8),
            size: le32(s, 16),
            read_flags: le32(s, 20),
            lock_owner: le64(s, 24),
            flags: le32(s, 32),
            padding: le32(s, 36),
        }
    }

    /// Reads the record stored at the start of `s`.
    pub fn parse(s: &[u8]) -> (r: FuseReadIn)
        requires
            s@.len() >= FUSE_READ_IN_SIZE,
        ensures
            r == FuseReadIn::spec_parse(s@),
    {
        FuseReadIn {
            fh: read_u64(s, 0),
            offset: read_u64(s, 8),
            size: read_u32(s, 16),
            read_flags: read_u32(s, 20),
            lock_owner: read_u64(s, 24),
            flags: read_u32(s, 32),
            padding: read_u32(s, 36),
        }
    }

    /// The wire encoding of this record.
    pub open spec fn spec_encode(self) -> Seq<u8> {
        enc64(self.fh) + enc64(self.offset) + enc32(self.size) + enc32(self.read_flags) + enc64(self.lock_owner) + enc32(self.flags) + enc32(self.padding)
    }

    /// Appends the wire encoding of this record to `out`.
    pub fn encode(&self, out: &mut Vec<u8>)
        ensures
            final(out)@ == old(out)@ + self.spec_encode(),
    {
        push_u64(out, self.fh);
        push_u64(out, self.offset);
        push_u32(out, self.size);
        push_u32(out, self.read_flags);
        push_u64(out, self.lock_owner);
        push_u32(out, self.flags);
        push_u32(out, self.padding);
        proof {
            assert(final(out)@ =~= old(out)@ + self.spec_encode());
        }
    }
}

/// The body of `FUSE_SETATTR` (`fuse_setattr_in`).
#[derive(Clone, Copy, Debug, PartialEq, Eq)]
pub struct FuseSetattrIn {
    pub valid: u32,
    pub padding: u32,
    pub fh: u64,
    pub size: u64,
    pub lock_owner: u64,
    pub atime: u64,
    pub mtime: u64,
    pub ctime: u64,
    pub atimensec: u32,
    pub mtimensec: u32,
    pub ctimensec: u32,
    pub mode: u32,
    pub unused4: u32,
    pub uid: u32,
    pub gid: u32,
    pub unused5: u32,
}

impl FuseSetattrIn {
    /// The record stored at the start of `s`.
    pub open spec fn spec_parse(s: Seq<u8>) -> FuseSetattrIn {
        FuseSetattrIn {
            valid: le32(s, 0),
            padding: le32(s, 4),
            fh: le64(s, 8),
            size: le64(s, 16),
            lock_owner: le64(s, 24),
            atime: le64(s, 32),
            mtime: le64(s, 40),
            ctime: le64(s, 48),
            atimensec: le32(s, 56),
            mtimensec: le32(s, 60),
            ctimensec: le32(s, 64),
            mode: le32(s, 68),
            unused4: le32(s, 72),
            uid: le32(s, 76),
            gid: le32(s, 80),
            unused5: le32(s, 84),
        }
    }

    /// Reads the record stored at the start of `s`.
    pub fn parse(s: &[u8]) -> (r: FuseSetattrIn)
        requires
            s@.len() >= FUSE_SETATTR_IN_SIZE,
        ensures
            r == FuseSetattrIn::spec_parse(s@),
    {
        FuseSetattrIn {
            valid: read_u32(s, 0),
            padding: read_u32(s, 4),
            fh: read_u64(s, 8),
            size: read_u64(s, 16),
            lock_owner: read_u64(s, 24),
            atime: read_u64(s, 32),
            mtime: read_u64(s, 40),
            ctime: read_u64(s, 48),
            atimensec: read_u32(s, 56),
            mtimensec: read_u32(s, 60),
            ctimensec: read_u32(s, 64),
            mode: read_u32(s, 68),
            unused4: read_u32(s, 72),
            uid: read_u32(s, 76),
            gid: read_u32(s, 80),
            unused5: read_u32(s, 84),
        }
    }

    /// The wire encoding of this record.
    pub open spec fn spec_encode(self) -> Seq<u8> {
        enc32(self.valid) + enc32(self.padding) + enc64(self.fh) + enc64(self.size) + enc64(self.lock_owner) + enc64(self.atime) + enc64(self.mtime) + enc64(self.ctime) + enc32(self.atimensec) + enc32(self.mtimensec) + enc32(self.ctimensec) + enc32(self.mode) + enc32(self.unused4) + enc32(self.uid) + enc32(self.gid) + enc32(self.unused5)
    }

    /// Appends the wire encoding of this record to `out`.
    pub fn encode(&self, out: &mut Vec<u8>)
        ensures
            final(out)@ == old(out)@ + self.spec_encode(),
    {
        push_u32(out, self.valid);
        push_u32(out, self.padding);
        push_u64(out, self.fh);
        push_u64(out, self.size);
        push_u64(out, self.lock_owner);
        push_u64(out, self.atime);
        push_u64(out, self.mtime);
        push_u64(out, self.ctime);
        push_u32(out, self.atimensec);
        push_u32(out, self.mtimensec);
        push_u32(out, self.ctimensec);
        push_u32(out, self.mode);
        push_u32(out, self.unused4);
        push_u32(out, self.uid);
        push_u32(out, self.gid);
        push_u32(out, self.unused5);
        proof {
            assert(final(out)@ =~= old(out)@ + self.spec_encode());
        }
    }
}

/// The body of `FUSE_SETLK` and `FUSE_SETLKW` (`fuse_lk_in`, with its lock record inlined).
#[derive(Clone, Copy, Debug, PartialEq, Eq)]
pub struct FuseLkIn {
    pub fh: u64,
    pub owner: u64,
    pub lk_start: u64,
    pub lk_end: u64,
    pub lk_type: u32,
    pub lk_pid: u32,
    pub lk_flags: u32,
    pub padding: u32,
}

impl FuseLkIn {
    /// The record stored at the start of `s`.
    pub open spec fn spec_parse(s: Seq<u8>) -> FuseLkIn {
        FuseLkIn {
            fh: le64(s, 0),
            owner: le64(s, 8),
            lk_start: le64(s, 16),
            lk_end: le64(s, 24),
            lk_type: le32(s, 32),
            lk_pid: le32(s, 36),
            lk_flags: le32(s, 40),
            padding: le32(s, 44),
        }
    }

    /// Reads the record stored at the start of `s`.
    pub fn parse(s: &[u8]) -> (r: FuseLkIn)
        requires
            s@.len() >= FUSE_LK_IN_SIZE,
        ensures
            r == FuseLkIn::spec_parse(s@),
    {
        FuseLkIn {
            fh: read_u64(s, 0),
            owner: read_u64(s, 8),
            lk_start: read_u64(s, 16),
            lk_end: read_u64(s, 24),
            lk_type: read_u32(s, 32),
            lk_pid: read_u32(s, 36),
            lk_flags: read_u32(s, 40),
            padding: read_u32(s, 44),
        }
    }

    /// The wire encoding of this record.
    pub open spec fn spec_encode(self) -> Seq<u8> {
        enc64(self.fh) + enc64(self.owner) + enc64(self.lk_start) + enc64(self.lk_end) + enc32(self.lk_type) + enc32(self.lk_pid) + enc32(self.lk_flags) + enc32(self.padding)
    }

    /// Appends the wire encoding of this record to `out`.
    pub fn encode(&self, out: &mut Vec<u8>)
        ensures
            final(out)@ == old(out)@ + self.spec_encode(),
    {
        push_u64(out, self.fh);
        push_u64(out, self.owner);
        push_u64(out, self.lk_start);
        push_u64(out, self.lk_end);
        push_u32(out, self.lk_type);
        push_u32(out, self.lk_pid);
        push_u32(out, self.lk_flags);
        push_u32(out, self.padding);
        proof {
            assert(final(out)@ =~= old(out)@ + self.spec_encode());
        }
    }
}

/// The fixed part of the body of `FUSE_SETXATTR` (`fuse_setxattr_in`).
#[derive(Clone, Copy, Debug, PartialEq, Eq)]
pub struct FuseSetxattrIn {
    pub size: u32,
    pub flags: u32,
    pub setxattr_flags: u32,
    pub padding: u32,
}

impl FuseSetxattrIn {
    /// The record stored at the start of `s`.
    pub open spec fn spec_parse(s: Seq<u8>) -> FuseSetxattrIn {
        FuseSetxattrIn {
            size: le32(s, 0),
            flags: le32(s, 4),
            setxattr_flags: le32(s, 8),
            padding: le32(s, 12),
        }
    }

    /// Reads the record stored at the start of `s`.
    pub fn parse(s: &[u8]) -> (r: FuseSetxattrIn)
        requires
            s@.len() >= FUSE_SETXATTR_IN_SIZE,
        ensures
            r == FuseSetxattrIn::spec_parse(s@),
    {
        FuseSetxattrIn {
            size: read_u32(s, 0),
            flags: read_u32(s, 4),
            setxattr_flags: read_u32(s, 8),
            padding: read_u32(s, 12),
        }
    }

    /// The wire encoding of this record.
    pub open spec fn spec_encode(self) -> Seq<u8> {
        enc32(self.size) + enc32(self.flags) + enc32(self.setxattr_flags) + enc32(self.padding)
    }

    /// Appends the wire encoding of this record to `out`.
    pub fn encode(&self, out: &mut Vec<u8>)
        ensures
            final(out)@ == old(out)@ + self.spec_encode(),
    {
        push_u32(out, self.size);
        push_u32(out, self.flags);
        push_u32(out, self.setxattr_flags);
        push_u32(out, self.padding);
        proof {
            assert(final(out)@ =~= old(out)@ + self.spec_encode());
        }
    }
}

/// The fixed part of the body of `FUSE_RENAME2` (`fuse_rename2_in`).
#[derive(Clone, Copy, Debug, PartialEq, Eq)]
pub struct FuseRename2In {
    pub newdir: u64,
    pub flags: u32,
    pub padding: u32,
}

impl FuseRename2In {
    /// The record stored at the start of `s`.
    pub open spec fn spec_parse(s: Seq<u8>) -> FuseRename2In {
        FuseRename2In {
            newdir: le64(s, 0),
            flags: le32(s, 8),
            padding: le32(s, 12),
        }
    }

    /// Reads the record stored at the start of `s`.
    pub fn parse(s: &[u8]) -> (r: FuseRename2In)
        requires
            s@.len() >= FUSE_RENAME2_IN_SIZE,
        ensures
            r == FuseRename2In::spec_parse(s@),
    {
        FuseRename2In {
            newdir: read_u64(s, 0),
            flags: read_u32(s, 8),
            padding: read_u32(s, 12),
        }
    }

    /// The wire encoding of this record.
    pub open spec fn spec_encode(self) -> Seq<u8> {
        enc64(self.newdir) + enc32(self.flags) + enc32(self.padding)
    }

    /// Appends the wire encoding of this record to `out`.
    pub fn encode(&self, out: &mut Vec<u8>)
        ensures
            final(out)@ == old(out)@ + self.spec_encode(),
    {
        push_u64(out, self.newdir);
        push_u32(out, self.flags);
        push_u32(out, self.padding);
        proof {
            assert(final(out)@ =~= old(out)@ + self.spec_encode());
        }
    }
}

/// The body of `FUSE_BMAP` (`fuse_bmap_in`).
#[derive(Clone, Copy, Debug, PartialEq, Eq)]
pub struct FuseBmapIn {
    pub block: u64,
    pub blocksize: u32,
    pub padding: u32,
}

impl FuseBmapIn {
    /// The record stored at the start of `s`.
    pub open spec fn spec_parse(s: Seq<u8>) -> FuseBmapIn {
        FuseBmapIn {
            block: le64(s, 0),
            blocksize: le32(s, 8),
            padding: le32(s, 12),
        }
    }

    /// Reads the record stored at the start of `s`.
    pub fn parse(s: &[u8]) -> (r: FuseBmapIn)
        requires
            s@.len() >= FUSE_BMAP_IN_SIZE,
        ensures
            r == FuseBmapIn::spec_parse(s@),
    {
        FuseBmapIn {
            block: read_u64(s, 0),
            blocksize: read_u32(s, 8),
            padding: read_u32(s, 12),
        }
    }

    /// The wire encoding of this record.
    pub open spec fn spec_encode(self) -> Seq<u8> {
        enc64(self.block) + enc32(self.blocksize) + enc32(self.padding)
    }

    /// Appends the wire encoding of this record to `out`.
    pub fn encode(&self, out: &mut Vec<u8>)
        ensures
            final(out)@ == old(out)@ + self.spec_encode(),
    {
        push_u64(out, self.block);
        push_u32(out, self.blocksize);
        push_u32(out, self.padding);
        proof {
            assert(final(out)@ =~= old(out)@ + self.spec_encode());
        }
    }
}

// }}}

// Init replies {{{

/// The reply to `FUSE_INIT` (`fuse_init_out`), as far as this library reads it.
#[derive(Clone, Copy, Debug, PartialEq, Eq)]
pub struct FuseInitOut {
    pub major: u32,
    pub minor: u32,
    pub max_readahead: u32,
    pub flags: u32,
    pub max_background: u16,
    pub congestion_threshold: u16,
    pub max_write: u32,
    pub time_gran: u32,
}

/// The reply to `CUSE_INIT` (`cuse_init_out`), as far as this library reads it.
#[derive(Clone, Copy, Debug, PartialEq, Eq)]
pub struct CuseInitOut {
    pub major: u32,
    pub minor: u32,
    pub flags: u32,
    pub max_read: u32,
    pub max_write: u32,
    pub dev_major: u32,
    pub dev_minor: u32,
}

// }}}

} // verus!
