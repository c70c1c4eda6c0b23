//! Properties that hold across the library's functions.

use vstd::prelude::*;

use crate::decode::spec_check_request;
use crate::encode::{spec_reply, spec_reply_header, MAX_REPLY_LEN};
use crate::error::{spec_request_error_code, RequestError, EINVAL, EPROTO};
use crate::kernel::{
    lemma_in_header_roundtrip,
    lemma_out_header_roundtrip,
    FuseInHeader,
    FuseOutHeader,
    FuseInitOut,
    FUSE_IN_HEADER_SIZE,
    FUSE_KERNEL_MINOR_VERSION,
    FUSE_KERNEL_VERSION,
    FUSE_MIN_READ_BUFFER,
    FUSE_OUT_HEADER_SIZE,
};
use crate::operations::fuse_init::FuseInitResponse;
use crate::server::session::{spec_cuse_handshake, spec_cuse_opened, spec_fuse_handshake, spec_fuse_opened, CuseServer};
use crate::server::{CuseLayout, FuseLayout};
use crate::operations::cuse_init::{CuseDeviceNumber, CuseInitResponse};
use crate::operations::readdirplus::{spec_encode_direntplus, spec_entry_size};
use crate::node::{lemma_entry_encoding_len, Node};
use crate::file_mode::S_IFMT;
use crate::operations::statfs::{lemma_kstatfs_encoding_len, spec_statfs_payload, FuseKstatfs};
use crate::operations::write::spec_write_payload;
use crate::freebsd::{spec_fuse_error_code, MAX_ERRNO};
use crate::server::fuse_rpc::spec_dispatch_outcome;
use crate::server::SendError;
use crate::server::dispatch::{spec_cuse_route, spec_fuse_route, CuseHandler, FuseHandler};
use crate::server::fuse_rpc::{spec_rpc_route as spec_fuse_rpc_route, RpcRoute as FuseRpcRoute};
use crate::server::cuse_rpc::{spec_rpc_route as spec_cuse_rpc_route, RpcRoute as CuseRpcRoute};
use crate::kernel::{FUSE_COMPAT_STATFS_SIZE, FUSE_DIRENTPLUS_SIZE, FUSE_KSTATFS_SIZE};
use crate::wire::{enc32, enc64, le32, le64, lemma_u32_roundtrip, lemma_u64_roundtrip};
use crate::ascii::{spec_dec, spec_oct};
use crate::linux::{has_no_nul, spec_join, spec_mount_data, spec_mount_entries, MountOptions};
use crate::server::{spec_negotiate_version, spec_recv_buf_len, FUSE_BUFFER_HEADER_SIZE, Version};

verus! {

/// A reply's header describes the reply: reading it back gives the reply's
/// full length, its error code and the ID of the request it answers, and the
/// payload follows the header unchanged.
pub proof fn law_reply_header_describes_reply(unique: u64, error: i32, payload: Seq<u8>)
    requires
        FUSE_OUT_HEADER_SIZE + payload.len() <= MAX_REPLY_LEN,
    ensures
        FuseOutHeader::spec_parse(spec_reply(unique, error, payload)) == (FuseOutHeader {
            len: spec_reply(unique, error, payload).len() as u32,
            error: error,
            unique: unique,
        }),
        spec_reply(unique, error, payload).subrange(
            FUSE_OUT_HEADER_SIZE as int,
            spec_reply(unique, error, payload).len() as int,
        ) == payload,
{
    let h = spec_reply_header(unique, error, payload.len() as int);
    lemma_out_header_roundtrip(h, payload);
    assert((h.spec_encode() + payload).subrange(16, 16 + payload.len() as int) =~= payload);
}

/// A request made of a header and the body it announces is accepted, and its
/// header reads back: a request with a non-zero ID whose `len` counts the
/// header and the body.
pub proof fn law_request_roundtrip(h: FuseInHeader, body: Seq<u8>)
    requires
        h.len == FUSE_IN_HEADER_SIZE + body.len(),
        h.unique != 0,
    ensures
        spec_check_request(h.spec_encode() + body) is Ok,
        FuseInHeader::spec_parse(h.spec_encode() + body) == h,
{
    lemma_in_header_roundtrip(h, body);
}

/// A request shorter than a header, or with ID zero, is refused.
pub proof fn law_malformed_request_refused(buf: Seq<u8>)
    ensures
        buf.len() < FUSE_IN_HEADER_SIZE ==> spec_check_request(buf) == Err::<(), _>(
            RequestError::UnexpectedEof,
        ),
        buf.len() >= FUSE_IN_HEADER_SIZE && FuseInHeader::spec_parse(buf).unique == 0
            ==> spec_check_request(buf) == Err::<(), _>(RequestError::InvalidRequestId),
{
}

/// Version negotiation keeps the client's major version or refuses it, and
/// settles on the lower of the two minor versions; negotiating again with
/// the result changes nothing.
pub proof fn law_negotiate_version(kernel: Version)
    ensures
        spec_negotiate_version(kernel) is Some <==> kernel.major == FUSE_KERNEL_VERSION,
        spec_negotiate_version(kernel) matches Some(v) ==> {
            &&& v.major == kernel.major
            &&& v.minor <= kernel.minor
            &&& v.minor <= FUSE_KERNEL_MINOR_VERSION
            &&& (v.minor == kernel.minor || v.minor == FUSE_KERNEL_MINOR_VERSION)
            &&& spec_negotiate_version(v) == Some(v)
        },
{
}

/// A receive buffer is never smaller than the minimum read buffer, and holds
/// the largest write plus its headers unless that exceeds the address space.
pub proof fn law_recv_buf_len(max_write: u32)
    ensures
        spec_recv_buf_len(max_write) >= FUSE_MIN_READ_BUFFER,
        spec_recv_buf_len(max_write) <= usize::MAX,
        max_write + FUSE_BUFFER_HEADER_SIZE <= usize::MAX ==> spec_recv_buf_len(max_write)
            >= max_write + FUSE_BUFFER_HEADER_SIZE,
{
}

/// The FUSE handshake opens a session exactly for a client of the same
/// major version. The reply then names the negotiated version and enables
/// only flags that both the client and the server offered; otherwise it
/// names the latest version and enables nothing. An accepted reply carries
/// every tunable of the server unchanged: read-ahead, background limits,
/// largest write and time granularity.
pub proof fn law_fuse_handshake(version: Version, flags: u32, opts: FuseInitOut)
    ensures
        spec_fuse_handshake(version, flags, opts).1 <==> version.major == FUSE_KERNEL_VERSION,
        spec_fuse_handshake(version, flags, opts).1 ==> {
            let reply = spec_fuse_handshake(version, flags, opts).0;
            &&& spec_negotiate_version(version) == Some(Version { major: reply.major, minor: reply.minor })
            &&& reply.flags & !flags == 0
            &&& reply.flags & !opts.flags == 0
            &&& reply.flags == flags & opts.flags
            &&& reply.max_readahead == opts.max_readahead
            &&& reply.max_background == opts.max_background
            &&& reply.congestion_threshold == opts.congestion_threshold
            &&& reply.max_write == opts.max_write
            &&& reply.time_gran == opts.time_gran
        },
        !spec_fuse_handshake(version, flags, opts).1 ==> spec_fuse_handshake(version, flags, opts).0
            == FuseInitResponse::spec_new(),
{
    let f = flags;
    let o = opts.flags;
    assert((f & o) & !f == 0u32) by (bit_vector);
    assert((f & o) & !o == 0u32) by (bit_vector);
}

/// A request that cannot be decoded is answered with a negative code:
/// `EPROTO` for one that is incomplete or has no ID, `EINVAL` otherwise.
pub proof fn law_request_error_code(err: RequestError)
    ensures
        spec_request_error_code(err) < 0,
        spec_request_error_code(err) == -EPROTO <==> (err == RequestError::UnexpectedEof || err
            == RequestError::InvalidRequestId),
        spec_request_error_code(err) == -EPROTO || spec_request_error_code(err) == -EINVAL,
{
}

/// The CUSE handshake opens a session exactly for a client of the same
/// major version; the reply then names the negotiated version and enables
/// only flags both sides offered, the server's largest read and write and the
/// device's number; otherwise it names the latest version.
pub proof fn law_cuse_handshake(
    version: Version,
    flags: u32,
    server_flags: u32,
    max_read: u32,
    max_write: u32,
    number: CuseDeviceNumber,
)
    ensures
        ({
            let (reply, ok) = spec_cuse_handshake(version, flags, server_flags, max_read, max_write, number);
            &&& ok <==> version.major == FUSE_KERNEL_VERSION
            &&& ok ==> {
                &&& spec_negotiate_version(version) == Some(Version { major: reply.major, minor: reply.minor })
                &&& reply.flags & !flags == 0
                &&& reply.flags & !server_flags == 0
                &&& reply.flags == flags & server_flags
                &&& reply.max_read == max_read
                &&& reply.max_write == max_write
                &&& reply.dev_major == number.major
                &&& reply.dev_minor == number.minor
            }
            &&& !ok ==> reply == CuseInitResponse::spec_new()
        }),
{
    let f = flags;
    let o = server_flags;
    assert((f & o) & !f == 0u32) by (bit_vector);
    assert((f & o) & !o == 0u32) by (bit_vector);
}

/// Each directory entry takes a multiple of eight bytes: its fixed part and
/// name, padded with fewer than eight bytes.
pub proof fn law_entry_size(name_len: nat)
    ensures
        spec_entry_size(name_len as int) % 8 == 0,
        FUSE_DIRENTPLUS_SIZE + name_len <= spec_entry_size(name_len as int) < FUSE_DIRENTPLUS_SIZE
            + name_len + 8,
{
}

/// A statistics reply carries 48 bytes before protocol 7.4 and 80 after.
pub proof fn law_statfs_payload_len(st: FuseKstatfs, version_minor: u32)
    ensures
        spec_statfs_payload(st, version_minor).len() == if version_minor < 4 {
            FUSE_COMPAT_STATFS_SIZE
        } else {
            FUSE_KSTATFS_SIZE
        },
{
    lemma_kstatfs_encoding_len(st);
}

/// A write reply is eight bytes and reads back the size it reports.
pub proof fn law_write_payload(size: u32)
    ensures
        spec_write_payload(size).len() == 8,
        le32(spec_write_payload(size), 0) == size,
{
    lemma_u32_roundtrip(size);
    lemma_u32_roundtrip(0);
    assert(spec_write_payload(size).subrange(0, 4) =~= crate::wire::enc32(size));
}

/// A FreeBSD error number becomes a negative reply code: its negation when
/// in range, else `-65535`.
pub proof fn law_fuse_error_code(errno: i32)
    requires
        errno != 0,
    ensures
        -MAX_ERRNO <= spec_fuse_error_code(errno) < 0,
        0 < errno <= MAX_ERRNO ==> spec_fuse_error_code(errno) == -errno,
{
}

/// A reply to a request the client has forgotten is no error; any other
/// outcome is reported as it is.
pub proof fn law_dispatch_outcome<E>(result: Result<(), SendError<E>>)
    ensures
        result matches Err(SendError::NotFound(_)) ==> spec_dispatch_outcome(result) is Ok,
        !(result matches Err(SendError::NotFound(_))) ==> spec_dispatch_outcome(result) == result,
{
}

/// Setting a flag makes it read as set, and clearing it makes it read as
/// clear, whatever else is set.
pub proof fn law_flag_set_get(bits: u32, mask: u32)
    requires
        mask != 0,
    ensures
        (bits | mask) & mask != 0,
        (bits & !mask) & mask == 0,
{
    assert(mask != 0 ==> (bits | mask) & mask != 0) by (bit_vector);
    assert((bits & !mask) & mask == 0) by (bit_vector);
}

/// Decimal digits hold no `NUL`.
proof fn lemma_dec_no_nul(n: nat)
    ensures
        has_no_nul(spec_dec(n)),
    decreases n,
{
    if n >= 10 {
        lemma_dec_no_nul(n / 10);
    }
}

/// Octal digits hold no `NUL`.
proof fn lemma_oct_no_nul(n: nat)
    ensures
        has_no_nul(spec_oct(n)),
    decreases n,
{
    if n >= 8 {
        lemma_oct_no_nul(n / 8);
    }
}

/// Entries free of `NUL`, joined by commas, hold no `NUL`.
proof fn lemma_join_no_nul(entries: Seq<Seq<u8>>)
    requires
        forall|k: int| 0 <= k < entries.len() ==> has_no_nul(#[trigger] entries[k]),
    ensures
        has_no_nul(spec_join(entries)),
    decreases entries.len(),
{
    if entries.len() > 1 {
        let rest = entries.drop_last();
        assert forall|k: int| 0 <= k < rest.len() implies has_no_nul(#[trigger] rest[k]) by {
            assert(rest[k] == entries[k]);
        }
        lemma_join_no_nul(rest);
        assert(has_no_nul(entries.last()));
    } else if entries.len() == 1 {
        assert(has_no_nul(entries[0]));
    }
}

/// Every entry is free of `NUL`.
pub open spec fn all_no_nul(entries: Seq<Seq<u8>>) -> bool {
    forall|k: int| 0 <= k < entries.len() ==> has_no_nul(#[trigger] entries[k])
}

/// Adding an entry free of `NUL` keeps every entry free of it.
proof fn lemma_push_no_nul(entries: Seq<Seq<u8>>, e: Seq<u8>)
    requires
        all_no_nul(entries),
        has_no_nul(e),
    ensures
        all_no_nul(entries.push(e)),
{
    assert forall|k: int| 0 <= k < entries.push(e).len() implies has_no_nul(
        #[trigger] entries.push(e)[k],
    ) by {
        if k < entries.len() {
            assert(entries.push(e)[k] == entries[k]);
        }
    }
}

/// A key followed by a number in decimal holds no `NUL` when the key holds
/// none.
proof fn lemma_keyed_no_nul(key: Seq<u8>, v: nat)
    requires
        has_no_nul(key),
    ensures
        has_no_nul(key + spec_dec(v)),
{
    lemma_dec_no_nul(v);
}

/// Mount data is a C string: it ends with its only `NUL`.
#[verifier::rlimit(100)]
pub proof fn law_mount_data_is_c_string(opts: MountOptions)
    requires
        opts.subtype matches Some(t) ==> has_no_nul(t.view_bytes()),
    ensures
        spec_mount_data(opts).len() >= 1,
        spec_mount_data(opts).last() == 0u8,
        has_no_nul(spec_mount_data(opts).drop_last()),
{
    let s0: Seq<Seq<u8>> = Seq::empty();
    let s1 = match opts.fuse_device_fd {
        Some(v) => {
            lemma_keyed_no_nul(seq![102u8, 100u8, 61u8], v as nat);
            lemma_push_no_nul(s0, crate::linux::spec_keyed_dec(seq![102u8, 100u8, 61u8], v));
            s0.push(crate::linux::spec_keyed_dec(seq![102u8, 100u8, 61u8], v))
        },
        None => s0,
    };
    assert(all_no_nul(s1));
    let e2 = seq![97u8, 108u8, 108u8, 111u8, 119u8, 95u8, 111u8, 116u8, 104u8, 101u8, 114u8];
    let s2 = if opts.allow_other {
        lemma_push_no_nul(s1, e2);
        s1.push(e2)
    } else {
        s1
    };
    let k3 = seq![98u8, 108u8, 107u8, 115u8, 105u8, 122u8, 101u8, 61u8];
    let s3 = match opts.block_size {
        Some(v) => {
            lemma_keyed_no_nul(k3, v as nat);
            lemma_push_no_nul(s2, crate::linux::spec_keyed_dec(k3, v));
            s2.push(crate::linux::spec_keyed_dec(k3, v))
        },
        None => s2,
    };
    let e4 = seq![
        100u8, 101u8, 102u8, 97u8, 117u8, 108u8, 116u8, 95u8, 112u8, 101u8, 114u8, 109u8,
        105u8, 115u8, 115u8, 105u8, 111u8, 110u8, 115u8
    ];
    let s4 = if opts.default_permissions {
        lemma_push_no_nul(s3, e4);
        s3.push(e4)
    } else {
        s3
    };
    let k5 = seq![103u8, 114u8, 111u8, 117u8, 112u8, 95u8, 105u8, 100u8, 61u8];
    let s5 = match opts.group_id {
        Some(v) => {
            lemma_keyed_no_nul(k5, v as nat);
            lemma_push_no_nul(s4, crate::linux::spec_keyed_dec(k5, v));
            s4.push(crate::linux::spec_keyed_dec(k5, v))
        },
        None => s4,
    };
    let k6 = seq![109u8, 97u8, 120u8, 95u8, 114u8, 101u8, 97u8, 100u8, 61u8];
    let s6 = match opts.max_read {
        Some(v) => {
            lemma_keyed_no_nul(k6, v as nat);
            lemma_push_no_nul(s5, crate::linux::spec_keyed_dec(k6, v));
            s5.push(crate::linux::spec_keyed_dec(k6, v))
        },
        None => s5,
    };
    let k7 = seq![114u8, 111u8, 111u8, 116u8, 109u8, 111u8, 100u8, 101u8, 61u8];
    let s7 = match opts.root_mode {
        Some(v) => {
            lemma_oct_no_nul(v as nat);
            lemma_push_no_nul(s6, k7 + spec_oct(v as nat));
            s6.push(k7 + spec_oct(v as nat))
        },
        None => s6,
    };
    let k8 = seq![115u8, 117u8, 98u8, 116u8, 121u8, 112u8, 101u8, 61u8];
    let s8 = match opts.subtype {
        Some(t) => {
            lemma_push_no_nul(s7, k8 + t.view_bytes());
            s7.push(k8 + t.view_bytes())
        },
        None => s7,
    };
    let k9 = seq![117u8, 115u8, 101u8, 114u8, 95u8, 105u8, 100u8, 61u8];
    let s9 = match opts.user_id {
        Some(v) => {
            lemma_keyed_no_nul(k9, v as nat);
            lemma_push_no_nul(s8, crate::linux::spec_keyed_dec(k9, v));
            s8.push(crate::linux::spec_keyed_dec(k9, v))
        },
        None => s8,
    };
    assert(s9 == spec_mount_entries(opts));
    lemma_join_no_nul(s9);
    let j = spec_join(s9);
    assert(j.push(0u8).drop_last() =~= j);
}


// Routing {{{

/// Each FUSE opcode the protocol defines goes to the handler named for it,
/// and to no other: `FUSE_OPENDIR` (27) to `opendir`, `FUSE_RENAME2` (45) to
/// `rename2`, and so on; every other opcode goes to `unimplemented`.
pub proof fn law_fuse_route_names_handler(opcode: u32)
    ensures
        spec_fuse_route(opcode) == FuseHandler::Access <==> opcode == 34u32,
        spec_fuse_route(opcode) == FuseHandler::BatchForget <==> opcode == 42u32,
        spec_fuse_route(opcode) == FuseHandler::Bmap <==> opcode == 37u32,
        spec_fuse_route(opcode) == FuseHandler::CopyFileRange <==> opcode == 47u32,
        spec_fuse_route(opcode) == FuseHandler::Create <==> opcode == 35u32,
        spec_fuse_route(opcode) == FuseHandler::Destroy <==> opcode == 38u32,
        spec_fuse_route(opcode) == FuseHandler::Fallocate <==> opcode == 43u32,
        spec_fuse_route(opcode) == FuseHandler::Flush <==> opcode == 25u32,
        spec_fuse_route(opcode) == FuseHandler::Forget <==> opcode == 2u32,
        spec_fuse_route(opcode) == FuseHandler::Fsync <==> opcode == 20u32,
        spec_fuse_route(opcode) == FuseHandler::Fsyncdir <==> opcode == 30u32,
        spec_fuse_route(opcode) == FuseHandler::Getattr <==> opcode == 3u32,
        spec_fuse_route(opcode) == FuseHandler::Getlk <==> opcode == 31u32,
        spec_fuse_route(opcode) == FuseHandler::Getxattr <==> opcode == 22u32,
        spec_fuse_route(opcode) == FuseHandler::Interrupt <==> opcode == 36u32,
        spec_fuse_route(opcode) == FuseHandler::Ioctl <==> opcode == 39u32,
        spec_fuse_route(opcode) == FuseHandler::Link <==> opcode == 13u32,
        spec_fuse_route(opcode) == FuseHandler::Listxattr <==> opcode == 23u32,
        spec_fuse_route(opcode) == FuseHandler::Lookup <==> opcode == 1u32,
        spec_fuse_route(opcode) == FuseHandler::Lseek <==> opcode == 46u32,
        spec_fuse_route(opcode) == FuseHandler::Mkdir <==> opcode == 9u32,
        spec_fuse_route(opcode) == FuseHandler::Mknod <==> opcode == 8u32,
        spec_fuse_route(opcode) == FuseHandler::Open <==> opcode == 14u32,
        spec_fuse_route(opcode) == FuseHandler::Opendir <==> opcode == 27u32,
        spec_fuse_route(opcode) == FuseHandler::Poll <==> opcode == 40u32,
        spec_fuse_route(opcode) == FuseHandler::Read <==> opcode == 15u32,
        spec_fuse_route(opcode) == FuseHandler::Readdir <==> opcode == 28u32,
        spec_fuse_route(opcode) == FuseHandler::Readdirplus <==> opcode == 44u32,
        spec_fuse_route(opcode) == FuseHandler::Readlink <==> opcode == 5u32,
        spec_fuse_route(opcode) == FuseHandler::Release <==> opcode == 18u32,
        spec_fuse_route(opcode) == FuseHandler::Releasedir <==> opcode == 29u32,
        spec_fuse_route(opcode) == FuseHandler::Removexattr <==> opcode == 24u32,
        spec_fuse_route(opcode) == FuseHandler::Rename <==> opcode == 12u32,
        spec_fuse_route(opcode) == FuseHandler::Rename2 <==> opcode == 45u32,
        spec_fuse_route(opcode) == FuseHandler::Rmdir <==> opcode == 11u32,
        spec_fuse_route(opcode) == FuseHandler::Setattr <==> opcode == 4u32,
        spec_fuse_route(opcode) == FuseHandler::Setlk <==> opcode == 32u32,
        spec_fuse_route(opcode) == FuseHandler::Setlkw <==> opcode == 33u32,
        spec_fuse_route(opcode) == FuseHandler::Setxattr <==> opcode == 21u32,
        spec_fuse_route(opcode) == FuseHandler::Statfs <==> opcode == 17u32,
        spec_fuse_route(opcode) == FuseHandler::Symlink <==> opcode == 6u32,
        spec_fuse_route(opcode) == FuseHandler::Syncfs <==> opcode == 50u32,
        spec_fuse_route(opcode) == FuseHandler::Unlink <==> opcode == 10u32,
        spec_fuse_route(opcode) == FuseHandler::Write <==> opcode == 16u32,
        spec_fuse_route(opcode) == FuseHandler::Unimplemented <==> !(opcode == 34u32 || opcode == 42u32 || opcode == 37u32 || opcode == 47u32 || opcode == 35u32 || opcode == 38u32 || opcode == 43u32 || opcode == 25u32 || opcode == 2u32 || opcode == 20u32 || opcode == 30u32 || opcode == 3u32 || opcode == 31u32 || opcode == 22u32 || opcode == 36u32 || opcode == 39u32 || opcode == 13u32 || opcode == 23u32 || opcode == 1u32 || opcode == 46u32 || opcode == 9u32 || opcode == 8u32 || opcode == 14u32 || opcode == 27u32 || opcode == 40u32 || opcode == 15u32 || opcode == 28u32 || opcode == 44u32 || opcode == 5u32 || opcode == 18u32 || opcode == 29u32 || opcode == 24u32 || opcode == 12u32 || opcode == 45u32 || opcode == 11u32 || opcode == 4u32 || opcode == 32u32 || opcode == 33u32 || opcode == 21u32 || opcode == 17u32 || opcode == 6u32 || opcode == 50u32 || opcode == 10u32 || opcode == 16u32),
{
}

/// Each opcode a CUSE device serves goes to the handler named for it, and to
/// no other; every other opcode goes to `unimplemented`.
pub proof fn law_cuse_route_names_handler(opcode: u32)
    ensures
        spec_cuse_route(opcode) == CuseHandler::Flush <==> opcode == 25u32,
        spec_cuse_route(opcode) == CuseHandler::Fsync <==> opcode == 20u32,
        spec_cuse_route(opcode) == CuseHandler::Interrupt <==> opcode == 36u32,
        spec_cuse_route(opcode) == CuseHandler::Ioctl <==> opcode == 39u32,
        spec_cuse_route(opcode) == CuseHandler::Open <==> opcode == 14u32,
        spec_cuse_route(opcode) == CuseHandler::Poll <==> opcode == 40u32,
        spec_cuse_route(opcode) == CuseHandler::Read <==> opcode == 15u32,
        spec_cuse_route(opcode) == CuseHandler::Release <==> opcode == 18u32,
        spec_cuse_route(opcode) == CuseHandler::Write <==> opcode == 16u32,
        spec_cuse_route(opcode) == CuseHandler::Unimplemented <==> !(opcode == 25u32 || opcode == 20u32 || opcode == 36u32 || opcode == 39u32 || opcode == 14u32 || opcode == 40u32 || opcode == 15u32 || opcode == 18u32 || opcode == 16u32),
{
}

/// The FUSE dispatcher sends each opcode it decodes to the handler for that
/// operation (`FUSE_RENAME2` with `FUSE_RENAME`, `FUSE_SETLKW` with
/// `FUSE_SETLK`), answers the other operations of the protocol as
/// unimplemented, drops forgets and interrupts, and treats every other opcode
/// as unknown.
pub proof fn law_fuse_rpc_route(opcode: u32)
    ensures
        spec_fuse_rpc_route(opcode) == FuseRpcRoute::Bmap <==> (opcode == 37u32),
        spec_fuse_rpc_route(opcode) == FuseRpcRoute::Readdirplus <==> (opcode == 44u32),
        spec_fuse_rpc_route(opcode) == FuseRpcRoute::Readlink <==> (opcode == 5u32),
        spec_fuse_rpc_route(opcode) == FuseRpcRoute::Release <==> (opcode == 18u32),
        spec_fuse_rpc_route(opcode) == FuseRpcRoute::Releasedir <==> (opcode == 29u32),
        spec_fuse_rpc_route(opcode) == FuseRpcRoute::Removexattr <==> (opcode == 24u32),
        spec_fuse_rpc_route(opcode) == FuseRpcRoute::Rename <==> (opcode == 12u32 || opcode == 45u32),
        spec_fuse_rpc_route(opcode) == FuseRpcRoute::Rmdir <==> (opcode == 11u32),
        spec_fuse_rpc_route(opcode) == FuseRpcRoute::Setattr <==> (opcode == 4u32),
        spec_fuse_rpc_route(opcode) == FuseRpcRoute::Setlk <==> (opcode == 32u32 || opcode == 33u32),
        spec_fuse_rpc_route(opcode) == FuseRpcRoute::Setxattr <==> (opcode == 21u32),
        spec_fuse_rpc_route(opcode) == FuseRpcRoute::Statfs <==> (opcode == 17u32),
        spec_fuse_rpc_route(opcode) == FuseRpcRoute::Symlink <==> (opcode == 6u32),
        spec_fuse_rpc_route(opcode) == FuseRpcRoute::Syncfs <==> (opcode == 50u32),
        spec_fuse_rpc_route(opcode) == FuseRpcRoute::Unlink <==> (opcode == 10u32),
        spec_fuse_rpc_route(opcode) == FuseRpcRoute::Write <==> (opcode == 16u32),
        spec_fuse_rpc_route(opcode) == FuseRpcRoute::Unimplemented <==> (opcode == 34u32 || opcode == 47u32 || opcode == 35u32 || opcode == 38u32 || opcode == 43u32 || opcode == 25u32 || opcode == 20u32 || opcode == 30u32 || opcode == 3u32 || opcode == 31u32 || opcode == 22u32 || opcode == 39u32 || opcode == 13u32 || opcode == 23u32 || opcode == 1u32 || opcode == 46u32 || opcode == 9u32 || opcode == 8u32 || opcode == 14u32 || opcode == 27u32 || opcode == 40u32 || opcode == 15u32 || opcode == 28u32),
        spec_fuse_rpc_route(opcode) == FuseRpcRoute::NoReply <==> (opcode == 2u32 || opcode == 42u32 || opcode == 36u32),
        spec_fuse_rpc_route(opcode) == FuseRpcRoute::Unknown <==> !(opcode == 37u32 || opcode == 44u32 || opcode == 5u32 || opcode == 18u32 || opcode == 29u32 || opcode == 24u32 || opcode == 12u32 || opcode == 45u32 || opcode == 11u32 || opcode == 4u32 || opcode == 32u32 || opcode == 33u32 || opcode == 21u32 || opcode == 17u32 || opcode == 6u32 || opcode == 50u32 || opcode == 10u32 || opcode == 16u32 || opcode == 34u32 || opcode == 47u32 || opcode == 35u32 || opcode == 38u32 || opcode == 43u32 || opcode == 25u32 || opcode == 20u32 || opcode == 30u32 || opcode == 3u32 || opcode == 31u32 || opcode == 22u32 || opcode == 39u32 || opcode == 13u32 || opcode == 23u32 || opcode == 1u32 || opcode == 46u32 || opcode == 9u32 || opcode == 8u32 || opcode == 14u32 || opcode == 27u32 || opcode == 40u32 || opcode == 15u32 || opcode == 28u32 || opcode == 2u32 || opcode == 42u32 || opcode == 36u32),
{
}

/// The CUSE dispatcher sends releases and writes to their handlers, answers
/// the other device operations as unimplemented, drops interrupts, and treats
/// every other opcode as unknown.
pub proof fn law_cuse_rpc_route(opcode: u32)
    ensures
        spec_cuse_rpc_route(opcode) == CuseRpcRoute::Release <==> (opcode == 18u32),
        spec_cuse_rpc_route(opcode) == CuseRpcRoute::Write <==> (opcode == 16u32),
        spec_cuse_rpc_route(opcode) == CuseRpcRoute::Unimplemented <==> (opcode == 25u32 || opcode == 20u32 || opcode == 39u32 || opcode == 14u32 || opcode == 40u32 || opcode == 15u32),
        spec_cuse_rpc_route(opcode) == CuseRpcRoute::NoReply <==> (opcode == 36u32),
        spec_cuse_rpc_route(opcode) == CuseRpcRoute::Unknown <==> !(opcode == 18u32 || opcode == 16u32 || opcode == 25u32 || opcode == 20u32 || opcode == 39u32 || opcode == 14u32 || opcode == 40u32 || opcode == 15u32 || opcode == 36u32),
{
}

// }}}


// Directory entries {{{

/// An encoded directory entry lays out, in order: the node's entry reply,
/// its inode, the offset to resume after it, the name's length, the type
/// of the node (the `S_IFMT` bits of its mode, shifted down: 4 for a
/// directory, 8 for a regular file, 10 for a symbolic link), the name, and
/// zeros up to the next multiple of eight bytes.
pub proof fn law_direntplus_layout(name: Seq<u8>, offset: u64, node: Node)
    requires
        name.len() <= u32::MAX,
    ensures
        ({
            let e = spec_encode_direntplus(name, offset, node);
            let n = name.len() as int;
            &&& e.len() % 8 == 0
            &&& 152 + n <= e.len() < 152 + n + 8
            &&& e.subrange(0, 128) == node.spec_encode()
            &&& le64(e, 128) == node.attr.ino
            &&& le64(e, 136) == offset
            &&& le32(e, 144) == name.len()
            &&& le32(e, 148) == (node.attr.mode & 0o170000u32) >> 12u32
            &&& (node.attr.mode & 0o170000u32 == 0o040000u32 ==> le32(e, 148) == 4)
            &&& (node.attr.mode & 0o170000u32 == 0o100000u32 ==> le32(e, 148) == 8)
            &&& (node.attr.mode & 0o170000u32 == 0o120000u32 ==> le32(e, 148) == 10)
            &&& e.subrange(152, 152 + n) == name
            &&& forall|i: int| 152 + n <= i < e.len() ==> e[i] == 0u8
        }),
{
    let e = spec_encode_direntplus(name, offset, node);
    let n = name.len() as int;
    let t = (node.attr.mode & S_IFMT) >> 12u32;
    lemma_entry_encoding_len(node);
    lemma_u64_roundtrip(node.attr.ino);
    lemma_u64_roundtrip(offset);
    lemma_u32_roundtrip(name.len() as u32);
    lemma_u32_roundtrip(t);
    let head = node.spec_encode();
    let pad_len = (spec_entry_size(n) - FUSE_DIRENTPLUS_SIZE - n) as nat;
    let pad = Seq::new(pad_len, |_i: int| 0u8);
    assert(e == head + enc64(node.attr.ino) + enc64(offset) + enc32(name.len() as u32) + enc32(t) + name + pad);
    assert(e.subrange(0, 128) =~= head);
    assert(e.subrange(128, 136) =~= enc64(node.attr.ino));
    assert(e.subrange(136, 144) =~= enc64(offset));
    assert(e.subrange(144, 148) =~= enc32(name.len() as u32));
    assert(e.subrange(148, 152) =~= enc32(t));
    assert(e.subrange(152, 152 + n) =~= name);
    assert forall|i: int| 152 + n <= i < e.len() implies e[i] == 0u8 by {
        assert(e[i] == pad[i - 152 - n]);
    }
    let m = node.attr.mode;
    assert(S_IFMT == 0o170000u32);
    assert(m & 0o170000u32 == 0o040000u32 ==> (m & 0o170000u32) >> 12u32 == 4u32) by (bit_vector);
    assert(m & 0o170000u32 == 0o100000u32 ==> (m & 0o170000u32) >> 12u32 == 8u32) by (bit_vector);
    assert(m & 0o170000u32 == 0o120000u32 ==> (m & 0o170000u32) >> 12u32 == 10u32) by (bit_vector);
}

// }}}




// Sessions {{{

/// A FUSE session opens only for a client of major version 7, at the lower
/// of the client's minor version and 36, and decodes extended `setxattr`
/// requests exactly when both the client and the server offered
/// `SETXATTR_EXT` (bit 29).
pub proof fn law_fuse_session_layout(layout: FuseLayout, version: Version, flags: u32, opts: FuseInitOut)
    requires
        spec_fuse_opened(layout, version, flags, opts),
    ensures
        version.major == 7,
        layout.spec_version_minor() == if version.minor < 36 { version.minor } else { 36 },
        layout.spec_setxattr_ext() <==> (flags & 0x2000_0000u32 != 0 && opts.flags & 0x2000_0000u32 != 0),
{
    let f = flags;
    let o = opts.flags;
    assert((f & o) & 0x2000_0000u32 != 0 <==> (f & 0x2000_0000u32 != 0 && o & 0x2000_0000u32 != 0)) by (bit_vector);
}

/// A CUSE session opens only for a client of major version 7, at the lower
/// of the client's minor version and 36.
pub proof fn law_cuse_session_layout(layout: CuseLayout, version: Version, flags: u32, server: CuseServer)
    requires
        spec_cuse_opened(layout, version, flags, server),
    ensures
        version.major == 7,
        layout.spec_version_minor() == if version.minor < 36 { version.minor } else { 36 },
{
}

// }}}

} // verus!
