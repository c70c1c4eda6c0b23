//! What decoding accepts and where each decoded field comes from.

use vstd::prelude::*;

use crate::error::{LockError, NodeNameError, RequestError};
use crate::kernel::{FuseInHeader, FuseLkIn, FuseSetattrIn};
use crate::operations::release::{spec_parse_release_like, ReleaseFields};
use crate::operations::setattr::spec_parse_setattr;
use crate::operations::fuse_init::spec_parse_fuse_init;
use crate::operations::cuse_init::spec_parse_cuse_init;
use crate::server::Version;
use crate::decode::spec_check_request;
use crate::xattr::spec_check_xattr_name;
use crate::operations::setxattr::{spec_parse_setxattr, SetxattrFields};
use crate::operations::removexattr::spec_parse_removexattr;
use crate::operations::bmap::spec_parse_bmap;
use crate::operations::readdirplus::{spec_parse_readdirplus, ReaddirplusFields};
use crate::operations::symlink::spec_parse_symlink;
use crate::decode::{is_first_nul, spec_take_cstr, spec_take_node_name};
use crate::node_name::{is_valid_node_name, lemma_check_node_name_ok};
use crate::operations::unlink::spec_parse_unlink;
use crate::operations::rmdir::spec_parse_rmdir;
use crate::operations::rename::spec_parse_rename;
use crate::lock::{Lock, LockRange};
use crate::node_name::{spec_check_node_name, spec_scan_name};
use crate::operations::setlk::{spec_parse_setlk, spec_setlk_lock};
use crate::operations::write::{spec_parse_write, WriteFields};
use crate::wire::{le32, le64};

verus! {

// Node names {{{

/// Whether the first `NUL` or `'/'` at or after `i` in `b` is at `k` and is
/// the byte `x`.
pub open spec fn first_forbidden_at(b: Seq<u8>, i: int, k: int, x: u8) -> bool {
    &&& i <= k < b.len()
    &&& b[k] == x
    &&& forall|j: int| i <= j < k ==> b[j] != 0u8 && b[j] != 47u8
}

/// Scanning from `i` reports the first forbidden byte found, and succeeds
/// exactly when there is none.
proof fn lemma_scan_reports_first(b: Seq<u8>, i: int)
    requires
        0 <= i <= b.len(),
    ensures
        spec_scan_name(b, i) is Ok <==> forall|j: int| i <= j < b.len() ==> b[j] != 0u8 && b[j] != 47u8,
        spec_scan_name(b, i) == Err::<(), NodeNameError>(NodeNameError::ContainsNul) <==> exists|k: int|
            first_forbidden_at(b, i, k, 0u8),
        spec_scan_name(b, i) == Err::<(), NodeNameError>(NodeNameError::ContainsSlash) <==> exists|k: int|
            first_forbidden_at(b, i, k, 47u8),
    decreases b.len() - i,
{
    if i < b.len() {
        lemma_scan_reports_first(b, i + 1);
        if b[i] == 0u8 {
            assert(first_forbidden_at(b, i, i, 0u8));
            assert forall|k: int| !first_forbidden_at(b, i, k, 47u8) by {
                if first_forbidden_at(b, i, k, 47u8) && k > i {
                    assert(b[i] != 0u8);
                }
            }
        } else if b[i] == 47u8 {
            assert(first_forbidden_at(b, i, i, 47u8));
            assert forall|k: int| !first_forbidden_at(b, i, k, 0u8) by {
                if first_forbidden_at(b, i, k, 0u8) && k > i {
                    assert(b[i] != 47u8);
                }
            }
        } else {
            let ip = i + 1;
            assert forall|k: int, x: u8| (x == 0u8 || x == 47u8) implies (first_forbidden_at(b, i, k, x)
                <==> first_forbidden_at(b, ip, k, x)) by {
                if first_forbidden_at(b, ip, k, x) {
                    assert forall|j: int| i <= j < k implies b[j] != 0u8 && b[j] != 47u8 by {
                        if j > i {
                            assert(i + 1 <= j < k);
                        }
                    }
                }
            }
            if exists|k: int| first_forbidden_at(b, i, k, 0u8) {
                let k = choose|k: int| first_forbidden_at(b, i, k, 0u8);
                assert(first_forbidden_at(b, ip, k, 0u8));
            }
            if exists|k: int| first_forbidden_at(b, i, k, 47u8) {
                let k = choose|k: int| first_forbidden_at(b, i, k, 47u8);
                assert(first_forbidden_at(b, ip, k, 47u8));
            }
            if exists|k: int| first_forbidden_at(b, ip, k, 0u8) {
                let k = choose|k: int| first_forbidden_at(b, ip, k, 0u8);
                assert(first_forbidden_at(b, i, k, 0u8));
            }
            if exists|k: int| first_forbidden_at(b, ip, k, 47u8) {
                let k = choose|k: int| first_forbidden_at(b, ip, k, 47u8);
                assert(first_forbidden_at(b, i, k, 47u8));
            }
            if forall|j: int| ip <= j < b.len() ==> b[j] != 0u8 && b[j] != 47u8 {
                assert forall|j: int| i <= j < b.len() implies b[j] != 0u8 && b[j] != 47u8 by {
                    if j > i {
                        assert(i + 1 <= j < b.len());
                    }
                }
            }
        }
    }
}

/// A node name is accepted exactly when it is one to 1024 bytes long and
/// holds neither `NUL` nor `'/'`. An empty name and a longer one are refused
/// as such; otherwise the first `NUL` or `'/'` in the name decides which of
/// the two is reported.
pub proof fn law_node_name_check(b: Seq<u8>)
    ensures
        spec_check_node_name(b) is Ok <==> (1 <= b.len() <= 1024 && forall|j: int|
            0 <= j < b.len() ==> b[j] != 0u8 && b[j] != 47u8),
        b.len() == 0 ==> spec_check_node_name(b) == Err::<(), NodeNameError>(NodeNameError::Empty),
        b.len() > 1024 ==> spec_check_node_name(b) == Err::<(), NodeNameError>(
            NodeNameError::ExceedsMaxLen,
        ),
        1 <= b.len() <= 1024 ==> (spec_check_node_name(b) == Err::<(), NodeNameError>(
            NodeNameError::ContainsNul,
        ) <==> exists|k: int| first_forbidden_at(b, 0, k, 0u8)),
        1 <= b.len() <= 1024 ==> (spec_check_node_name(b) == Err::<(), NodeNameError>(
            NodeNameError::ContainsSlash,
        ) <==> exists|k: int| first_forbidden_at(b, 0, k, 47u8)),
{
    lemma_scan_reports_first(b, 0);
}

// }}}


// Write and lock requests {{{

/// The 32-bit word at `off` of a body taken from `bytes` at `start` is the
/// word at `start + off` of `bytes`.
proof fn lemma_le32_in_body(bytes: Seq<u8>, start: int, n: int, off: int)
    requires
        0 <= start,
        0 <= off,
        off + 4 <= n,
        start + n <= bytes.len(),
    ensures
        le32(bytes.subrange(start, start + n), off) == le32(bytes, start + off),
{
    assert(bytes.subrange(start, start + n).subrange(off, off + 4) =~= bytes.subrange(start + off, start + off + 4));
}

/// The 64-bit word at `off` of a body taken from `bytes` at `start` is the
/// word at `start + off` of `bytes`.
proof fn lemma_le64_in_body(bytes: Seq<u8>, start: int, n: int, off: int)
    requires
        0 <= start,
        0 <= off,
        off + 8 <= n,
        start + n <= bytes.len(),
    ensures
        le64(bytes.subrange(start, start + n), off) == le64(bytes, start + off),
{
    assert(bytes.subrange(start, start + n).subrange(off, off + 8) =~= bytes.subrange(start + off, start + off + 8));
}

/// A `FUSE_WRITE` request (opcode 16) is accepted exactly when it names a
/// node (a CUSE request needs none) and holds its fixed part (40 bytes from
/// 7.9 on, 24 before) and the data its `size` word announces. After the
/// 40-byte header come the file handle, the offset, the size and the write
/// flags; from 7.9 on also the lock owner, which counts only when the flags
/// say so (`FUSE_WRITE_LOCKOWNER`, 2), and the open flags. The data follows
/// the fixed part.
pub proof fn law_write_request_fields(h: FuseInHeader, bytes: Seq<u8>, version_minor: u32, is_cuse: bool)
    ensures
        ({
            let fixed: int = if version_minor >= 9 { 40 } else { 24 };
            let r = spec_parse_write(h, bytes, version_minor, is_cuse);
            &&& r is Ok <==> (h.opcode == 16 && (is_cuse || h.nodeid != 0) && 40 + fixed <= bytes.len()
                && 40 + fixed + le32(bytes, 56) <= bytes.len())
            &&& h.opcode != 16 ==> r == Err::<WriteFields, RequestError>(RequestError::OpcodeMismatch)
            &&& (h.opcode == 16 && !is_cuse && h.nodeid == 0) ==> r == Err::<WriteFields, RequestError>(
                RequestError::MissingNodeId,
            )
            &&& (h.opcode == 16 && (is_cuse || h.nodeid != 0) && !(r is Ok)) ==> r == Err::<WriteFields, RequestError>(
                RequestError::UnexpectedEof,
            )
            &&& r matches Ok(f) ==> {
                &&& f.node_id == if h.nodeid == 0 { 1 } else { h.nodeid }
                &&& f.handle == le64(bytes, 40)
                &&& f.offset == le64(bytes, 48)
                &&& f.value == bytes.subrange(40 + fixed, 40 + fixed + le32(bytes, 56))
                &&& f.write_flags == le32(bytes, 60)
                &&& f.lock_owner == if version_minor >= 9 && le32(bytes, 60) & 2 != 0 {
                    Some(le64(bytes, 64))
                } else {
                    None
                }
                &&& f.open_flags == if version_minor >= 9 { le32(bytes, 72) } else { 0 }
            }
        }),
{
    let fixed: int = if version_minor >= 9 { 40 } else { 24 };
    if 40 + fixed <= bytes.len() {
        lemma_le64_in_body(bytes, 40, fixed, 0);
        lemma_le64_in_body(bytes, 40, fixed, 8);
        lemma_le32_in_body(bytes, 40, fixed, 16);
        lemma_le32_in_body(bytes, 40, fixed, 20);
        if version_minor >= 9 {
            lemma_le64_in_body(bytes, 40, fixed, 24);
            lemma_le32_in_body(bytes, 40, fixed, 32);
        }
    }
}

/// A `FUSE_SETLK` (32) or `FUSE_SETLKW` (33) request is accepted exactly
/// when it names a node, holds the 48-byte lock record after its header,
/// and the record asks for a shared lock (0), an exclusive lock (1) or an
/// unlock (2); any other lock type is refused. The record holds the file
/// handle, the lock owner, the first and last byte of the range, the lock
/// type, the process and the lock flags, in that order.
pub proof fn law_setlk_request_fields(h: FuseInHeader, bytes: Seq<u8>)
    ensures
        ({
            let r = spec_parse_setlk(h, bytes);
            let known = h.opcode == 32 || h.opcode == 33;
            &&& r is Ok <==> (known && h.nodeid != 0 && 88 <= bytes.len() && le32(bytes, 72) <= 2)
            &&& !known ==> r == Err::<(u64, FuseLkIn), RequestError>(RequestError::OpcodeMismatch)
            &&& (known && h.nodeid == 0) ==> r == Err::<(u64, FuseLkIn), RequestError>(
                RequestError::MissingNodeId,
            )
            &&& (known && h.nodeid != 0 && bytes.len() < 88) ==> r == Err::<(u64, FuseLkIn), RequestError>(
                RequestError::UnexpectedEof,
            )
            &&& (known && h.nodeid != 0 && 88 <= bytes.len() && le32(bytes, 72) > 2) ==> r == Err::<
                (u64, FuseLkIn),
                RequestError,
            >(RequestError::LockError(LockError::UnsupportedMode))
            &&& r matches Ok((node, raw)) ==> {
                &&& node == h.nodeid
                &&& raw.fh == le64(bytes, 40)
                &&& raw.owner == le64(bytes, 48)
                &&& raw.lk_start == le64(bytes, 56)
                &&& raw.lk_end == le64(bytes, 64)
                &&& raw.lk_type == le32(bytes, 72)
                &&& raw.lk_pid == le32(bytes, 76)
                &&& raw.lk_flags == le32(bytes, 80)
            }
        }),
{
    if 88 <= bytes.len() {
        lemma_le64_in_body(bytes, 40, 48, 0);
        lemma_le64_in_body(bytes, 40, 48, 8);
        lemma_le64_in_body(bytes, 40, 48, 16);
        lemma_le64_in_body(bytes, 40, 48, 24);
        lemma_le32_in_body(bytes, 40, 48, 32);
        lemma_le32_in_body(bytes, 40, 48, 36);
        lemma_le32_in_body(bytes, 40, 48, 40);
    }
}

/// The lock a lock request describes covers the record's range, has the
/// record's type, and names the record's process exactly when it is not an
/// unlock and the process is not zero.
pub proof fn law_setlk_lock(raw: FuseLkIn, l: Lock)
    requires
        spec_setlk_lock(raw, l),
    ensures
        l.range == (LockRange { start: raw.lk_start, end: raw.lk_end }),
        l.mode.0 == raw.lk_type,
        l.process_id is Some <==> (raw.lk_type != 2 && raw.lk_pid != 0),
        l.process_id matches Some(p) ==> p@ == raw.lk_pid,
{
}

// }}}


// Attribute and release requests {{{

/// A `FUSE_SETATTR` request (opcode 4) is accepted exactly when it names a
/// node, holds the 88-byte attribute record after its header, and each
/// timestamp the record marks valid (access 16, modification 32, change
/// 1024) has fewer than a billion nanoseconds; a timestamp with more is
/// refused as an overflow. The record holds the valid mask, the handle, the
/// size, the lock owner, the three times in seconds and then in
/// nanoseconds, the mode, the user and the group.
pub proof fn law_setattr_request_fields(h: FuseInHeader, bytes: Seq<u8>)
    ensures
        ({
            let r = spec_parse_setattr(h, bytes);
            let valid = le32(bytes, 40);
            let times_ok = (valid & 16 != 0 ==> le32(bytes, 96) <= 999_999_999) && (valid & 32 != 0
                ==> le32(bytes, 100) <= 999_999_999) && (valid & 1024 != 0 ==> le32(bytes, 104)
                <= 999_999_999);
            &&& r is Ok <==> (h.opcode == 4 && h.nodeid != 0 && 128 <= bytes.len() && times_ok)
            &&& h.opcode != 4 ==> r == Err::<(u64, FuseSetattrIn), RequestError>(RequestError::OpcodeMismatch)
            &&& (h.opcode == 4 && h.nodeid == 0) ==> r == Err::<(u64, FuseSetattrIn), RequestError>(
                RequestError::MissingNodeId,
            )
            &&& (h.opcode == 4 && h.nodeid != 0 && bytes.len() < 128) ==> r == Err::<
                (u64, FuseSetattrIn),
                RequestError,
            >(RequestError::UnexpectedEof)
            &&& (h.opcode == 4 && h.nodeid != 0 && 128 <= bytes.len() && !times_ok) ==> r == Err::<
                (u64, FuseSetattrIn),
                RequestError,
            >(RequestError::TimestampOverflow)
            &&& r matches Ok((node, raw)) ==> {
                &&& node == h.nodeid
                &&& raw.valid == valid
                &&& raw.fh == le64(bytes, 48)
                &&& raw.size == le64(bytes, 56)
                &&& raw.lock_owner == le64(bytes, 64)
                &&& raw.atime == le64(bytes, 72)
                &&& raw.mtime == le64(bytes, 80)
                &&& raw.ctime == le64(bytes, 88)
                &&& raw.atimensec == le32(bytes, 96)
                &&& raw.mtimensec == le32(bytes, 100)
                &&& raw.ctimensec == le32(bytes, 104)
                &&& raw.mode == le32(bytes, 108)
                &&& raw.uid == le32(bytes, 116)
                &&& raw.gid == le32(bytes, 120)
            }
        }),
{
    if 128 <= bytes.len() {
        lemma_le32_in_body(bytes, 40, 88, 0);
        lemma_le64_in_body(bytes, 40, 88, 8);
        lemma_le64_in_body(bytes, 40, 88, 16);
        lemma_le64_in_body(bytes, 40, 88, 24);
        lemma_le64_in_body(bytes, 40, 88, 32);
        lemma_le64_in_body(bytes, 40, 88, 40);
        lemma_le64_in_body(bytes, 40, 88, 48);
        lemma_le32_in_body(bytes, 40, 88, 56);
        lemma_le32_in_body(bytes, 40, 88, 60);
        lemma_le32_in_body(bytes, 40, 88, 64);
        lemma_le32_in_body(bytes, 40, 88, 68);
        lemma_le32_in_body(bytes, 40, 88, 76);
        lemma_le32_in_body(bytes, 40, 88, 80);
    }
}

/// A release request is accepted exactly when it has the expected opcode,
/// names a node (a CUSE request needs none) and holds its record: 24 bytes
/// from 7.8 on, 16 before. The record holds the handle, the open flags, the
/// release flags and, from 7.8 on, the lock owner, which counts only when
/// the release flags ask to drop its `flock` locks
/// (`FUSE_RELEASE_FLOCK_UNLOCK`, 2).
pub proof fn law_release_request_fields(
    h: FuseInHeader,
    bytes: Seq<u8>,
    opcode: u32,
    version_minor: u32,
    is_cuse: bool,
)
    ensures
        ({
            let fixed: int = if version_minor >= 8 { 24 } else { 16 };
            let r = spec_parse_release_like(h, bytes, opcode, version_minor, is_cuse);
            &&& r is Ok <==> (h.opcode == opcode && (is_cuse || h.nodeid != 0) && 40 + fixed <= bytes.len())
            &&& h.opcode != opcode ==> r == Err::<ReleaseFields, RequestError>(RequestError::OpcodeMismatch)
            &&& (h.opcode == opcode && !is_cuse && h.nodeid == 0) ==> r == Err::<ReleaseFields, RequestError>(
                RequestError::MissingNodeId,
            )
            &&& (h.opcode == opcode && (is_cuse || h.nodeid != 0) && bytes.len() < 40 + fixed) ==> r
                == Err::<ReleaseFields, RequestError>(RequestError::UnexpectedEof)
            &&& r matches Ok(f) ==> {
                &&& f.node_id == if h.nodeid == 0 { 1 } else { h.nodeid }
                &&& f.handle == le64(bytes, 40)
                &&& f.open_flags == le32(bytes, 48)
                &&& f.lock_owner == if version_minor >= 8 && le32(bytes, 52) & 2 != 0 {
                    Some(le64(bytes, 56))
                } else {
                    None
                }
            }
        }),
{
    let fixed: int = if version_minor >= 8 { 24 } else { 16 };
    if 40 + fixed <= bytes.len() {
        lemma_le64_in_body(bytes, 40, fixed, 0);
        lemma_le32_in_body(bytes, 40, fixed, 8);
        lemma_le32_in_body(bytes, 40, fixed, 12);
        if version_minor >= 8 {
            lemma_le64_in_body(bytes, 40, fixed, 16);
        }
    }
}

// }}}


// Init requests {{{

/// A `FUSE_INIT` request (opcode 26) is accepted exactly when it holds the
/// client's major and minor version after its header and, for a client of
/// 7.6 or later, the read-ahead limit and the flags it offers after them;
/// an older client offers none.
pub proof fn law_fuse_init_request_fields(h: FuseInHeader, bytes: Seq<u8>)
    ensures
        ({
            let r = spec_parse_fuse_init(h, bytes);
            let minor = le32(bytes, 44);
            &&& r is Ok <==> (h.opcode == 26 && 48 <= bytes.len() && (minor >= 6 ==> 56 <= bytes.len()))
            &&& h.opcode != 26 ==> r == Err::<(Version, u32, u32), RequestError>(RequestError::OpcodeMismatch)
            &&& (h.opcode == 26 && !(r is Ok)) ==> r == Err::<(Version, u32, u32), RequestError>(
                RequestError::UnexpectedEof,
            )
            &&& r matches Ok((version, readahead, flags)) ==> {
                &&& version == (Version { major: le32(bytes, 40), minor })
                &&& readahead == if minor >= 6 { le32(bytes, 48) } else { 0 }
                &&& flags == if minor >= 6 { le32(bytes, 52) } else { 0 }
            }
        }),
{
    if 48 <= bytes.len() {
        lemma_le32_in_body(bytes, 40, 8, 0);
        lemma_le32_in_body(bytes, 40, 8, 4);
        if 56 <= bytes.len() {
            lemma_le32_in_body(bytes, 48, 8, 0);
            lemma_le32_in_body(bytes, 48, 8, 4);
        }
    }
}

/// A `CUSE_INIT` request (opcode 4096) is accepted exactly when it holds its
/// 16-byte body after its header: the client's major and minor version, an
/// unused word, and the flags it offers.
pub proof fn law_cuse_init_request_fields(h: FuseInHeader, bytes: Seq<u8>)
    ensures
        ({
            let r = spec_parse_cuse_init(h, bytes);
            &&& r is Ok <==> (h.opcode == 4096 && 56 <= bytes.len())
            &&& h.opcode != 4096 ==> r == Err::<(Version, u32), RequestError>(RequestError::OpcodeMismatch)
            &&& (h.opcode == 4096 && bytes.len() < 56) ==> r == Err::<(Version, u32), RequestError>(
                RequestError::UnexpectedEof,
            )
            &&& r matches Ok((version, flags)) ==> {
                &&& version == (Version { major: le32(bytes, 40), minor: le32(bytes, 44) })
                &&& flags == le32(bytes, 52)
            }
        }),
{
    if 56 <= bytes.len() {
        lemma_le32_in_body(bytes, 40, 16, 0);
        lemma_le32_in_body(bytes, 40, 16, 4);
        lemma_le32_in_body(bytes, 40, 16, 12);
    }
}

// }}}


// Names in requests {{{

/// Whether `bytes[pos..k]` is a non-empty run without `NUL` ended by the
/// `NUL` at `k`.
pub open spec fn nul_ended_at(bytes: Seq<u8>, pos: int, k: int) -> bool {
    &&& pos < k < bytes.len()
    &&& bytes[k] == 0u8
    &&& forall|j: int| pos <= j < k ==> bytes[j] != 0u8
}

/// Reading a C string at `pos` gives the bytes up to the next `NUL`, which
/// it skips; it fails when there is no `NUL`, or the string would be empty.
pub proof fn law_take_cstr(bytes: Seq<u8>, pos: int)
    requires
        0 <= pos,
    ensures
        spec_take_cstr(bytes, pos) is Some <==> exists|k: int| nul_ended_at(bytes, pos, k),
        forall|k: int|
            nul_ended_at(bytes, pos, k) ==> spec_take_cstr(bytes, pos) == Some(
                (bytes.subrange(pos, k), k + 1),
            ),
{
    assert forall|k: int| nul_ended_at(bytes, pos, k) implies spec_take_cstr(bytes, pos) == Some(
        (bytes.subrange(pos, k), k + 1),
    ) by {
        assert(is_first_nul(bytes, pos, k));
        let k2 = choose|k2: int| is_first_nul(bytes, pos, k2);
        if k2 < k {
            assert(bytes[k2] != 0u8);
        }
        if k < k2 {
            assert(bytes[k] != 0u8);
        }
    }
    if spec_take_cstr(bytes, pos) is Some {
        let k = choose|k: int| is_first_nul(bytes, pos, k);
        assert(nul_ended_at(bytes, pos, k));
    }
}

/// A `FUSE_UNLINK` (10) or `FUSE_RMDIR` (11) request names its parent
/// directory in its header and the node to remove right after it, as a
/// `NUL`-terminated valid node name.
pub proof fn law_unlink_rmdir_request_fields(h: FuseInHeader, bytes: Seq<u8>)
    ensures
        h.opcode != 10 ==> spec_parse_unlink(h, bytes) == Err::<(u64, Seq<u8>), RequestError>(
            RequestError::OpcodeMismatch,
        ),
        h.opcode != 11 ==> spec_parse_rmdir(h, bytes) == Err::<(u64, Seq<u8>), RequestError>(
            RequestError::OpcodeMismatch,
        ),
        h.opcode == 10 && h.nodeid == 0 ==> spec_parse_unlink(h, bytes) == Err::<(u64, Seq<u8>), RequestError>(
            RequestError::MissingNodeId,
        ),
        h.opcode == 11 && h.nodeid == 0 ==> spec_parse_rmdir(h, bytes) == Err::<(u64, Seq<u8>), RequestError>(
            RequestError::MissingNodeId,
        ),
        forall|k: int|
            #![trigger nul_ended_at(bytes, 40, k)]
            h.nodeid != 0 && nul_ended_at(bytes, 40, k) && is_valid_node_name(bytes.subrange(40, k)) ==> {
                &&& (h.opcode == 10 ==> spec_parse_unlink(h, bytes) == Ok::<(u64, Seq<u8>), RequestError>(
                    (h.nodeid, bytes.subrange(40, k)),
                ))
                &&& (h.opcode == 11 ==> spec_parse_rmdir(h, bytes) == Ok::<(u64, Seq<u8>), RequestError>(
                    (h.nodeid, bytes.subrange(40, k)),
                ))
            },
{
    law_take_cstr(bytes, 40);
    assert forall|k: int| h.nodeid != 0 && nul_ended_at(bytes, 40, k) && is_valid_node_name(bytes.subrange(40, k)) implies
        spec_take_node_name(bytes, 40) == Ok::<(Seq<u8>, int), RequestError>((bytes.subrange(40, k), k + 1)) by {
        lemma_check_node_name_ok(bytes.subrange(40, k));
    }
}

/// Whether `n1` and then `n2` are read from `bytes` at `start` as two
/// `NUL`-terminated strings, one right after the other.
pub open spec fn two_names_at(bytes: Seq<u8>, start: int, n1: Seq<u8>, n2: Seq<u8>) -> bool {
    exists|k1: int, k2: int|
        #![trigger nul_ended_at(bytes, start, k1), nul_ended_at(bytes, k1 + 1, k2)]
        nul_ended_at(bytes, start, k1) && nul_ended_at(bytes, k1 + 1, k2) && n1 == bytes.subrange(start, k1)
            && n2 == bytes.subrange(k1 + 1, k2)
}

/// A rename request names the old directory in its header; after the
/// header come the new directory and, for `FUSE_RENAME2` (45), the rename
/// flags and a padding word, then the old name and the new name, each a
/// `NUL`-terminated valid node name. `FUSE_RENAME` (12) carries no flags,
/// which read as zero. Both directories must be named.
pub proof fn law_rename_request_fields(h: FuseInHeader, bytes: Seq<u8>)
    ensures
        ({
            let r = spec_parse_rename(h, bytes);
            let start: int = if h.opcode == 45 { 56 } else { 48 };
            &&& (h.opcode != 12 && h.opcode != 45) ==> r == Err::<(u64, Seq<u8>, u64, Seq<u8>, u32), RequestError>(
                RequestError::OpcodeMismatch,
            )
            &&& r matches Ok((old_dir, old_name, new_dir, new_name, flags)) ==> {
                &&& h.opcode == 12 || h.opcode == 45
                &&& old_dir == h.nodeid && old_dir != 0
                &&& new_dir == le64(bytes, 40) && new_dir != 0
                &&& flags == if h.opcode == 45 { le32(bytes, 48) } else { 0 }
                &&& two_names_at(bytes, start, old_name, new_name)
                &&& is_valid_node_name(old_name)
                &&& is_valid_node_name(new_name)
            }
        }),
{
    let r = spec_parse_rename(h, bytes);
    let start: int = if h.opcode == 45 { 56 } else { 48 };
    if r is Ok {
        if h.opcode == 45 {
            lemma_le64_in_body(bytes, 40, 16, 0);
            lemma_le32_in_body(bytes, 40, 16, 8);
        } else {
            lemma_le64_in_body(bytes, 40, 8, 0);
        }
        law_take_cstr(bytes, start);
        let (n1, p2) = spec_take_cstr(bytes, start).unwrap();
        let k1 = choose|k: int| nul_ended_at(bytes, start, k);
        assert(p2 == k1 + 1);
        law_take_cstr(bytes, p2);
        let k2 = choose|k: int| nul_ended_at(bytes, p2, k);
        lemma_check_node_name_ok(n1);
        lemma_check_node_name_ok(bytes.subrange(p2, k2));
        let (od, on, nd, nn, fl) = r.unwrap();
        assert(on =~= bytes.subrange(start, k1));
        assert(nn =~= bytes.subrange(k1 + 1, k2));
        assert(nul_ended_at(bytes, start, k1) && nul_ended_at(bytes, k1 + 1, k2));
        assert(two_names_at(bytes, start, on, nn));
    }
}

// }}}


// Request framing {{{

/// A received buffer is a request exactly when it holds the 40-byte header,
/// the header's request ID (the 64-bit word at byte 8) is not zero, and the
/// buffer holds at least the length the header announces (the word at byte
/// 0). A buffer shorter than either is incomplete. The header holds, in
/// order, the length, the opcode, the request ID, the node ID, the user,
/// the group and the process.
pub proof fn law_request_framing(buf: Seq<u8>)
    ensures
        spec_check_request(buf) is Ok <==> (40 <= buf.len() && le64(buf, 8) != 0 && le32(buf, 0) <= buf.len()),
        buf.len() < 40 ==> spec_check_request(buf) == Err::<(), RequestError>(RequestError::UnexpectedEof),
        40 <= buf.len() && le64(buf, 8) == 0 ==> spec_check_request(buf) == Err::<(), RequestError>(
            RequestError::InvalidRequestId,
        ),
        40 <= buf.len() && le64(buf, 8) != 0 && le32(buf, 0) > buf.len() ==> spec_check_request(buf) == Err::<
            (),
            RequestError,
        >(RequestError::UnexpectedEof),
        40 <= buf.len() ==> FuseInHeader::spec_parse(buf) == (FuseInHeader {
            len: le32(buf, 0),
            opcode: le32(buf, 4),
            unique: le64(buf, 8),
            nodeid: le64(buf, 16),
            uid: le32(buf, 24),
            gid: le32(buf, 28),
            pid: le32(buf, 32),
            padding: le32(buf, 36),
        }),
{
}

// }}}


// Other requests {{{

/// An extended attribute name is accepted exactly when it is one to 255
/// bytes long and holds no `NUL`.
pub proof fn law_xattr_name_check(b: Seq<u8>)
    ensures
        spec_check_xattr_name(b) is Ok <==> (1 <= b.len() <= 255 && forall|j: int| 0 <= j < b.len() ==> b[j] != 0u8),
{
    if b.len() >= 1 && b.len() <= 255 && b.contains(0u8) {
        let j = choose|j: int| 0 <= j < b.len() && b[j] == 0u8;
        assert(b[j] == 0u8);
    }
}

/// Whether `name` is read from `bytes` at `start` up to a `NUL`, and
/// `value` is the `size` bytes right after that `NUL`.
pub open spec fn name_then_value_at(bytes: Seq<u8>, start: int, name: Seq<u8>, value: Seq<u8>, size: int) -> bool {
    exists|k: int|
        #[trigger] nul_ended_at(bytes, start, k) && name == bytes.subrange(start, k) && value == bytes.subrange(
            k + 1,
            k + 1 + size,
        )
}

/// A `FUSE_SETXATTR` request (opcode 21) names its node in its header;
/// after the header come the value's size and the `setxattr` flags, then,
/// where the session carries them, the extended flags and a padding word;
/// then the attribute's name up to a `NUL`, and then the value, of the
/// announced size, at most 65536 bytes.
pub proof fn law_setxattr_request_fields(h: FuseInHeader, bytes: Seq<u8>, setxattr_ext: bool)
    ensures
        ({
            let r = spec_parse_setxattr(h, bytes, setxattr_ext);
            let start: int = if setxattr_ext { 56 } else { 48 };
            &&& h.opcode != 21 ==> r == Err::<SetxattrFields, RequestError>(RequestError::OpcodeMismatch)
            &&& (h.opcode == 21 && h.nodeid == 0) ==> r == Err::<SetxattrFields, RequestError>(
                RequestError::MissingNodeId,
            )
            &&& r matches Ok(f) ==> {
                &&& h.opcode == 21
                &&& f.node_id == h.nodeid && f.node_id != 0
                &&& f.setxattr_flags == le32(bytes, 44)
                &&& f.flags == if setxattr_ext { le32(bytes, 48) } else { 0 }
                &&& name_then_value_at(bytes, start, f.name, f.value, le32(bytes, 40) as int)
                &&& 1 <= f.name.len() <= 255
                &&& f.value.len() <= 65536
            }
        }),
{
    let r = spec_parse_setxattr(h, bytes, setxattr_ext);
    let fixed: int = if setxattr_ext { 16 } else { 8 };
    if r is Ok {
        lemma_le32_in_body(bytes, 40, fixed, 0);
        lemma_le32_in_body(bytes, 40, fixed, 4);
        if setxattr_ext {
            lemma_le32_in_body(bytes, 40, fixed, 8);
        }
        let start: int = 40 + fixed;
        law_take_cstr(bytes, start);
        let k = choose|k: int| nul_ended_at(bytes, start, k);
        let f = r.unwrap();
        assert(f.name =~= bytes.subrange(start, k));
        assert(f.value =~= bytes.subrange(k + 1, k + 1 + le32(bytes, 40)));
        assert(nul_ended_at(bytes, start, k));
        assert(name_then_value_at(bytes, start, f.name, f.value, le32(bytes, 40) as int));
    }
}

/// A `FUSE_REMOVEXATTR` request (opcode 24) names its node in its header and
/// the attribute right after it, up to a `NUL`.
pub proof fn law_removexattr_request_fields(h: FuseInHeader, bytes: Seq<u8>)
    ensures
        ({
            let r = spec_parse_removexattr(h, bytes);
            &&& h.opcode != 24 ==> r == Err::<(u64, Seq<u8>), RequestError>(RequestError::OpcodeMismatch)
            &&& (h.opcode == 24 && h.nodeid == 0) ==> r == Err::<(u64, Seq<u8>), RequestError>(
                RequestError::MissingNodeId,
            )
            &&& forall|k: int|
                #![trigger nul_ended_at(bytes, 40, k)]
                h.opcode == 24 && h.nodeid != 0 && nul_ended_at(bytes, 40, k) && k - 40 <= 255 ==> r == Ok::<
                    (u64, Seq<u8>),
                    RequestError,
                >((h.nodeid, bytes.subrange(40, k)))
        }),
{
    law_take_cstr(bytes, 40);
    assert forall|k: int| #![trigger nul_ended_at(bytes, 40, k)] h.opcode == 24 && h.nodeid != 0 && nul_ended_at(bytes, 40, k) && k - 40 <= 255 implies
        spec_check_xattr_name(bytes.subrange(40, k)) is Ok by {
        law_xattr_name_check(bytes.subrange(40, k));
    }
}

/// A `FUSE_BMAP` request (opcode 37) holds, after its header, the block to
/// map and the block size.
pub proof fn law_bmap_request_fields(h: FuseInHeader, bytes: Seq<u8>)
    ensures
        ({
            let r = spec_parse_bmap(h, bytes);
            &&& r is Ok <==> (h.opcode == 37 && 56 <= bytes.len())
            &&& h.opcode != 37 ==> r == Err::<(u64, u64, u32), RequestError>(RequestError::OpcodeMismatch)
            &&& r matches Ok((node, block, blocksize)) ==> {
                &&& node == h.nodeid
                &&& block == le64(bytes, 40)
                &&& blocksize == le32(bytes, 48)
            }
        }),
{
    if 56 <= bytes.len() {
        lemma_le64_in_body(bytes, 40, 16, 0);
        lemma_le32_in_body(bytes, 40, 16, 8);
    }
}

/// A `FUSE_READDIRPLUS` request (opcode 44) names its directory and holds,
/// after its header, the handle, the offset to resume at and the most bytes
/// to return; from 7.9 on (a 40-byte body, else 24) also the open flags.
pub proof fn law_readdirplus_request_fields(h: FuseInHeader, bytes: Seq<u8>, version_minor: u32)
    ensures
        ({
            let r = spec_parse_readdirplus(h, bytes, version_minor);
            let fixed: int = if version_minor >= 9 { 40 } else { 24 };
            &&& r is Ok <==> (h.opcode == 44 && h.nodeid != 0 && 40 + fixed <= bytes.len())
            &&& h.opcode != 44 ==> r == Err::<ReaddirplusFields, RequestError>(RequestError::OpcodeMismatch)
            &&& (h.opcode == 44 && h.nodeid == 0) ==> r == Err::<ReaddirplusFields, RequestError>(
                RequestError::MissingNodeId,
            )
            &&& r matches Ok(f) ==> {
                &&& f.node_id == h.nodeid
                &&& f.handle == le64(bytes, 40)
                &&& f.offset == le64(bytes, 48)
                &&& f.size == le32(bytes, 56)
                &&& f.open_flags == if version_minor >= 9 { le32(bytes, 72) } else { 0 }
            }
        }),
{
    let fixed: int = if version_minor >= 9 { 40 } else { 24 };
    if 40 + fixed <= bytes.len() {
        lemma_le64_in_body(bytes, 40, fixed, 0);
        lemma_le64_in_body(bytes, 40, fixed, 8);
        lemma_le32_in_body(bytes, 40, fixed, 16);
        if version_minor >= 9 {
            lemma_le32_in_body(bytes, 40, fixed, 32);
        }
    }
}

/// A `FUSE_SYMLINK` request (opcode 6) names the parent directory in its
/// header; after it come the link's content up to a `NUL`, then the new
/// link's name up to a `NUL`, which must be a valid node name.
pub proof fn law_symlink_request_fields(h: FuseInHeader, bytes: Seq<u8>)
    ensures
        ({
            let r = spec_parse_symlink(h, bytes);
            &&& h.opcode != 6 ==> r == Err::<(u64, Seq<u8>, Seq<u8>), RequestError>(RequestError::OpcodeMismatch)
            &&& r matches Ok((parent, name, content)) ==> {
                &&& h.opcode == 6
                &&& parent == h.nodeid && parent != 0
                &&& two_names_at(bytes, 40, content, name)
                &&& is_valid_node_name(name)
            }
        }),
{
    let r = spec_parse_symlink(h, bytes);
    if r is Ok {
        law_take_cstr(bytes, 40);
        let (c, p2) = spec_take_cstr(bytes, 40).unwrap();
        let k1 = choose|k: int| nul_ended_at(bytes, 40, k);
        law_take_cstr(bytes, p2);
        let k2 = choose|k: int| nul_ended_at(bytes, p2, k);
        let (parent, name, content) = r.unwrap();
        lemma_check_node_name_ok(name);
        assert(content =~= bytes.subrange(40, k1));
        assert(name =~= bytes.subrange(k1 + 1, k2));
        assert(nul_ended_at(bytes, 40, k1) && nul_ended_at(bytes, k1 + 1, k2));
        assert(two_names_at(bytes, 40, content, name));
    }
}

// }}}

} // verus!
