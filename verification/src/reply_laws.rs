//! Where each field of a reply stands in its payload.

use vstd::prelude::*;

use crate::encode::spec_reply_len;
use crate::file_mode::{spec_file_type, FileType};
use crate::node::{lemma_entry_encoding_len, Node};
use crate::kernel::{CuseInitOut, FuseInitOut};
use crate::operations::cuse_init::{spec_device_info, spec_encode_cuse_init_out};
use crate::operations::fuse_init::{spec_init_payload, spec_pack_u16s};
use crate::operations::statfs::{spec_statfs_payload, FuseKstatfs};
use crate::wire::{enc32, enc64, le32, le64, lemma_u32_roundtrip, lemma_u64_roundtrip};

verus! {

/// Two 16-bit halves packed into a word read back as the low half plus the
/// high half times 65536.
proof fn lemma_pack_u16s(lo: u16, hi: u16)
    ensures
        spec_pack_u16s(lo, hi) == lo as int + hi as int * 65536,
{
    let l = lo as u32;
    let h = hi as u32;
    assert(l < 0x10000u32 && h < 0x10000u32 ==> (l | (h << 16u32)) == l + h * 0x10000u32) by (bit_vector);
}

/// A FUSE init reply is 8 bytes for a client before 7.5, 24 before 7.23
/// and 64 from then on, and reads back what the reply says: the version
/// first, then the read-ahead, the flags, the background limits (the
/// congestion threshold in the high half), the largest write and the time
/// granularity, each where the client's version expects it; the rest is
/// zero.
pub proof fn law_fuse_init_reply_layout(raw: FuseInitOut)
    ensures
        ({
            let p = spec_init_payload(raw);
            &&& p.len() == if raw.minor < 5 {
                8int
            } else if raw.minor < 23 {
                24int
            } else {
                64int
            }
            &&& le32(p, 0) == raw.major
            &&& le32(p, 4) == raw.minor
            &&& raw.minor >= 5 ==> {
                &&& le32(p, 8) == raw.max_readahead
                &&& le32(p, 12) == raw.flags
                &&& le32(p, 16) == raw.max_background as int + raw.congestion_threshold as int * 65536
                &&& le32(p, 20) == raw.max_write
            }
            &&& raw.minor >= 23 ==> {
                &&& le32(p, 24) == raw.time_gran
                &&& forall|i: int| 28 <= i < 64 ==> p[i] == 0u8
            }
        }),
{
    let packed = spec_pack_u16s(raw.max_background, raw.congestion_threshold);
    lemma_pack_u16s(raw.max_background, raw.congestion_threshold);
    lemma_u32_roundtrip(raw.major);
    lemma_u32_roundtrip(raw.minor);
    lemma_u32_roundtrip(raw.max_readahead);
    lemma_u32_roundtrip(raw.flags);
    lemma_u32_roundtrip(packed);
    lemma_u32_roundtrip(raw.max_write);
    lemma_u32_roundtrip(raw.time_gran);
    let z = Seq::new(36, |_i: int| 0u8);
    let full = enc32(raw.major) + enc32(raw.minor) + enc32(raw.max_readahead) + enc32(raw.flags) + enc32(
        packed,
    ) + enc32(raw.max_write) + enc32(raw.time_gran) + z;
    let p = spec_init_payload(raw);
    assert(p == full.subrange(0, p.len() as int));
    assert(p.subrange(0, 4) =~= enc32(raw.major));
    assert(p.subrange(4, 8) =~= enc32(raw.minor));
    if raw.minor >= 5 {
        assert(p.subrange(8, 12) =~= enc32(raw.max_readahead));
        assert(p.subrange(12, 16) =~= enc32(raw.flags));
        assert(p.subrange(16, 20) =~= enc32(packed));
        assert(p.subrange(20, 24) =~= enc32(raw.max_write));
    }
    if raw.minor >= 23 {
        assert(p.subrange(24, 28) =~= enc32(raw.time_gran));
        assert forall|i: int| 28 <= i < 64 implies p[i] == 0u8 by {
            assert(p[i] == z[i - 28]);
        }
    }
}

/// A CUSE init reply is 80 bytes, then the device information: the version,
/// a reserved zero word, the flags, the largest read, the largest write and
/// the device's major and minor numbers, zeros up to byte 80, and then, for
/// a named device, `DEVNAME=`, the name and a `NUL`.
pub proof fn law_cuse_init_reply_layout(raw: CuseInitOut, name: Option<Seq<u8>>)
    ensures
        ({
            let p = spec_encode_cuse_init_out(raw) + spec_device_info(name);
            &&& le32(p, 0) == raw.major
            &&& le32(p, 4) == raw.minor
            &&& le32(p, 8) == 0
            &&& le32(p, 12) == raw.flags
            &&& le32(p, 16) == raw.max_read
            &&& le32(p, 20) == raw.max_write
            &&& le32(p, 24) == raw.dev_major
            &&& le32(p, 28) == raw.dev_minor
            &&& forall|i: int| 32 <= i < 80 ==> p[i] == 0u8
            &&& name matches None ==> p.len() == 80
            &&& name matches Some(n) ==> {
                &&& p.len() == 80 + 8 + n.len() + 1
                &&& p.subrange(80, 88) == seq![68u8, 69u8, 86u8, 78u8, 65u8, 77u8, 69u8, 61u8]
                &&& p.subrange(88, 88 + n.len() as int) == n
                &&& p[88 + n.len() as int] == 0u8
            }
        }),
{
    lemma_u32_roundtrip(raw.major);
    lemma_u32_roundtrip(raw.minor);
    lemma_u32_roundtrip(0);
    lemma_u32_roundtrip(raw.flags);
    lemma_u32_roundtrip(raw.max_read);
    lemma_u32_roundtrip(raw.max_write);
    lemma_u32_roundtrip(raw.dev_major);
    lemma_u32_roundtrip(raw.dev_minor);
    let z = Seq::new(48, |_i: int| 0u8);
    let head = enc32(raw.major) + enc32(raw.minor) + enc32(0) + enc32(raw.flags) + enc32(raw.max_read) + enc32(
        raw.max_write,
    ) + enc32(raw.dev_major) + enc32(raw.dev_minor) + z;
    assert(spec_encode_cuse_init_out(raw) == head);
    let info = spec_device_info(name);
    let p = head + info;
    assert(p.subrange(0, 4) =~= enc32(raw.major));
    assert(p.subrange(4, 8) =~= enc32(raw.minor));
    assert(p.subrange(8, 12) =~= enc32(0));
    assert(p.subrange(12, 16) =~= enc32(raw.flags));
    assert(p.subrange(16, 20) =~= enc32(raw.max_read));
    assert(p.subrange(20, 24) =~= enc32(raw.max_write));
    assert(p.subrange(24, 28) =~= enc32(raw.dev_major));
    assert(p.subrange(28, 32) =~= enc32(raw.dev_minor));
    assert forall|i: int| 32 <= i < 80 implies p[i] == 0u8 by {
        assert(p[i] == z[i - 32]);
    }
    if let Some(n) = name {
        let key = seq![68u8, 69u8, 86u8, 78u8, 65u8, 77u8, 69u8, 61u8];
        assert(info == key + n + seq![0u8]);
        assert(p.subrange(80, 88) =~= key);
        assert(p.subrange(88, 88 + n.len() as int) =~= n);
        assert(p[88 + n.len() as int] == info[8 + n.len() as int]);
    }
}

/// A filesystem statistics reply reads back the statistics: the block,
/// free-block, available-block, file and free-file counts as 64-bit words,
/// then the block size and the longest name; from 7.4 on it also carries
/// the fragment size, and is zero after it up to 80 bytes.
pub proof fn law_statfs_reply_layout(st: FuseKstatfs, version_minor: u32)
    ensures
        ({
            let p = spec_statfs_payload(st, version_minor);
            &&& p.len() == if version_minor < 4 {
                48int
            } else {
                80int
            }
            &&& le64(p, 0) == st.blocks
            &&& le64(p, 8) == st.bfree
            &&& le64(p, 16) == st.bavail
            &&& le64(p, 24) == st.files
            &&& le64(p, 32) == st.ffree
            &&& le32(p, 40) == st.bsize
            &&& le32(p, 44) == st.namelen
            &&& version_minor >= 4 ==> {
                &&& le32(p, 48) == st.frsize
                &&& forall|i: int| 52 <= i < 80 ==> p[i] == 0u8
            }
        }),
{
    lemma_u64_roundtrip(st.blocks);
    lemma_u64_roundtrip(st.bfree);
    lemma_u64_roundtrip(st.bavail);
    lemma_u64_roundtrip(st.files);
    lemma_u64_roundtrip(st.ffree);
    lemma_u32_roundtrip(st.bsize);
    lemma_u32_roundtrip(st.namelen);
    lemma_u32_roundtrip(st.frsize);
    let z = Seq::new(28, |_i: int| 0u8);
    let full = enc64(st.blocks) + enc64(st.bfree) + enc64(st.bavail) + enc64(st.files) + enc64(st.ffree)
        + enc32(st.bsize) + enc32(st.namelen) + enc32(st.frsize) + z;
    assert(st.spec_encode() == full);
    let p = spec_statfs_payload(st, version_minor);
    assert(p == full.subrange(0, p.len() as int));
    assert(p.subrange(0, 8) =~= enc64(st.blocks));
    assert(p.subrange(8, 16) =~= enc64(st.bfree));
    assert(p.subrange(16, 24) =~= enc64(st.bavail));
    assert(p.subrange(24, 32) =~= enc64(st.files));
    assert(p.subrange(32, 40) =~= enc64(st.ffree));
    assert(p.subrange(40, 44) =~= enc32(st.bsize));
    assert(p.subrange(44, 48) =~= enc32(st.namelen));
    if version_minor >= 4 {
        assert(p.subrange(48, 52) =~= enc32(st.frsize));
        assert forall|i: int| 52 <= i < 80 implies p[i] == 0u8 by {
            assert(p[i] == z[i - 52]);
        }
    }
}


/// The length a reply of four payload parts is given is the header's 16
/// bytes plus the parts' lengths, saturating at the largest 64-bit number;
/// it exceeds what the protocol carries (`u32::MAX`) exactly when the true
/// sum does.
pub proof fn law_reply_len(l1: nat, l2: nat, l3: nat, l4: nat)
    ensures
        spec_reply_len(l1 as int, l2 as int, l3 as int, l4 as int) == if 16 + l1 + l2 + l3 + l4 <= u64::MAX {
            (16 + l1 + l2 + l3 + l4) as int
        } else {
            u64::MAX as int
        },
        spec_reply_len(l1 as int, l2 as int, l3 as int, l4 as int) > 0xFFFF_FFFF <==> 16 + l1 + l2 + l3 + l4
            > 0xFFFF_FFFF,
{
}


/// An entry reply reads back the node it describes: the node ID, the
/// generation, how long the entry and the attributes stay valid (seconds,
/// then nanoseconds), and then the attributes: inode, size, blocks, the
/// access, modification and change times in seconds and then nanoseconds,
/// the mode, the link count, the user, the group, the device, the block
/// size and the flags. A client before 7.9 gets the first 120 bytes.
pub proof fn law_entry_reply_layout(n: Node, version_minor: u32)
    ensures
        ({
            let e = n.spec_encode_entry(version_minor);
            let a = n.attr;
            &&& e.len() == if version_minor < 9 { 120int } else { 128int }
            &&& le64(e, 0) == n.nodeid
            &&& le64(e, 8) == n.generation
            &&& le64(e, 16) == n.entry_valid
            &&& le64(e, 24) == n.attr_valid
            &&& le32(e, 32) == n.entry_valid_nsec
            &&& le32(e, 36) == n.attr_valid_nsec
            &&& le64(e, 40) == a.ino
            &&& le64(e, 48) == a.size
            &&& le64(e, 56) == a.blocks
            &&& le64(e, 64) == a.atime
            &&& le64(e, 72) == a.mtime
            &&& le64(e, 80) == a.ctime
            &&& le32(e, 88) == a.atimensec
            &&& le32(e, 92) == a.mtimensec
            &&& le32(e, 96) == a.ctimensec
            &&& le32(e, 100) == a.mode
            &&& le32(e, 104) == a.nlink
            &&& le32(e, 108) == a.uid
            &&& le32(e, 112) == a.gid
            &&& le32(e, 116) == a.rdev
            &&& version_minor >= 9 ==> le32(e, 120) == a.blksize && le32(e, 124) == a.flags
        }),
{
    let a = n.attr;
    lemma_entry_encoding_len(n);
    lemma_u64_roundtrip(n.nodeid);
    lemma_u64_roundtrip(n.generation);
    lemma_u64_roundtrip(n.entry_valid);
    lemma_u64_roundtrip(n.attr_valid);
    lemma_u32_roundtrip(n.entry_valid_nsec);
    lemma_u32_roundtrip(n.attr_valid_nsec);
    lemma_u64_roundtrip(a.ino);
    lemma_u64_roundtrip(a.size);
    lemma_u64_roundtrip(a.blocks);
    lemma_u64_roundtrip(a.atime);
    lemma_u64_roundtrip(a.mtime);
    lemma_u64_roundtrip(a.ctime);
    lemma_u32_roundtrip(a.atimensec);
    lemma_u32_roundtrip(a.mtimensec);
    lemma_u32_roundtrip(a.ctimensec);
    lemma_u32_roundtrip(a.mode);
    lemma_u32_roundtrip(a.nlink);
    lemma_u32_roundtrip(a.uid);
    lemma_u32_roundtrip(a.gid);
    lemma_u32_roundtrip(a.rdev);
    lemma_u32_roundtrip(a.blksize);
    lemma_u32_roundtrip(a.flags);
    let full = enc64(n.nodeid) + enc64(n.generation) + enc64(n.entry_valid) + enc64(n.attr_valid) + enc32(
        n.entry_valid_nsec,
    ) + enc32(n.attr_valid_nsec) + enc64(a.ino) + enc64(a.size) + enc64(a.blocks) + enc64(a.atime)
        + enc64(a.mtime) + enc64(a.ctime) + enc32(a.atimensec) + enc32(a.mtimensec) + enc32(a.ctimensec)
        + enc32(a.mode) + enc32(a.nlink) + enc32(a.uid) + enc32(a.gid) + enc32(a.rdev) + enc32(a.blksize)
        + enc32(a.flags);
    assert(n.spec_encode() =~= full);
    let e = n.spec_encode_entry(version_minor);
    assert(e == full.subrange(0, e.len() as int));
    assert(e.subrange(0, 8) =~= enc64(n.nodeid));
    assert(e.subrange(8, 16) =~= enc64(n.generation));
    assert(e.subrange(16, 24) =~= enc64(n.entry_valid));
    assert(e.subrange(24, 32) =~= enc64(n.attr_valid));
    assert(e.subrange(32, 36) =~= enc32(n.entry_valid_nsec));
    assert(e.subrange(36, 40) =~= enc32(n.attr_valid_nsec));
    assert(e.subrange(40, 48) =~= enc64(a.ino));
    assert(e.subrange(48, 56) =~= enc64(a.size));
    assert(e.subrange(56, 64) =~= enc64(a.blocks));
    assert(e.subrange(64, 72) =~= enc64(a.atime));
    assert(e.subrange(72, 80) =~= enc64(a.mtime));
    assert(e.subrange(80, 88) =~= enc64(a.ctime));
    assert(e.subrange(88, 92) =~= enc32(a.atimensec));
    assert(e.subrange(92, 96) =~= enc32(a.mtimensec));
    assert(e.subrange(96, 100) =~= enc32(a.ctimensec));
    assert(e.subrange(100, 104) =~= enc32(a.mode));
    assert(e.subrange(104, 108) =~= enc32(a.nlink));
    assert(e.subrange(108, 112) =~= enc32(a.uid));
    assert(e.subrange(112, 116) =~= enc32(a.gid));
    assert(e.subrange(116, 120) =~= enc32(a.rdev));
    if version_minor >= 9 {
        assert(e.subrange(120, 124) =~= enc32(a.blksize));
        assert(e.subrange(124, 128) =~= enc32(a.flags));
    }
}

/// The file type of a mode is named by its `S_IFMT` bits (`0o170000`): a
/// named pipe for `0o010000`, a character device for `0o020000`, a directory
/// for `0o040000`, a block device for `0o060000`, a regular file for
/// `0o100000`, a symbolic link for `0o120000`, a socket for `0o140000`, and
/// none for any other value; the permission bits play no part.
pub proof fn law_file_type(mode: u32)
    ensures
        spec_file_type(mode) == Some(FileType::NamedPipe) <==> mode & 0o170000u32 == 0o010000u32,
        spec_file_type(mode) == Some(FileType::CharacterDevice) <==> mode & 0o170000u32 == 0o020000u32,
        spec_file_type(mode) == Some(FileType::Directory) <==> mode & 0o170000u32 == 0o040000u32,
        spec_file_type(mode) == Some(FileType::BlockDevice) <==> mode & 0o170000u32 == 0o060000u32,
        spec_file_type(mode) == Some(FileType::Regular) <==> mode & 0o170000u32 == 0o100000u32,
        spec_file_type(mode) == Some(FileType::Symlink) <==> mode & 0o170000u32 == 0o120000u32,
        spec_file_type(mode) == Some(FileType::Socket) <==> mode & 0o170000u32 == 0o140000u32,
        spec_file_type(mode) == spec_file_type(mode & 0o170000u32),
{
    let m = mode;
    assert((m & 0o170000u32) & 0o170000u32 == m & 0o170000u32) by (bit_vector);
}

} // verus!
