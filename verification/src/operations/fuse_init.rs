//! The `FUSE_INIT` operation: the handshake that opens a FUSE session.

use vstd::prelude::*;

use crate::decode::{spec_take, Request};
use crate::error::RequestError;
use crate::kernel::{FuseInHeader, FuseInitOut, FUSE_IN_HEADER_SIZE, FUSE_INIT, FUSE_KERNEL_MINOR_VERSION, FUSE_KERNEL_VERSION};
use crate::server::{FuseLayout, FuseReply, FuseReplySender, FuseSocket, SendError, Version};
use crate::wire::{enc32, le32, lemma_u32_roundtrip, push_u32, push_zeros, read_u32};

verus! {

// FuseInitRequest {{{

/// The size of the version fields that start every init request.
pub const FUSE_INIT_IN_VERSION_SIZE: usize = 8;

/// The size of the fields that follow the version from protocol 7.6 on.
pub const FUSE_INIT_IN_V7P6_EXTRA_SIZE: usize = 8;

/// What a `FUSE_INIT` request holds: the client's version, and from 7.6 on
/// its read-ahead limit and the flags it offers.
pub open spec fn spec_parse_fuse_init(h: FuseInHeader, bytes: Seq<u8>) -> Result<(Version, u32, u32), RequestError> {
    if h.opcode != FUSE_INIT {
        Err(RequestError::OpcodeMismatch)
    } else {
        match spec_take(bytes, FUSE_IN_HEADER_SIZE as int, FUSE_INIT_IN_VERSION_SIZE as int) {
            None => Err(RequestError::UnexpectedEof),
            Some((v, pos)) => {
                let version = Version { major: le32(v, 0), minor: le32(v, 4) };
                if version.minor < 6 {
                    Ok((version, 0u32, 0u32))
                } else {
                    match spec_take(bytes, pos, FUSE_INIT_IN_V7P6_EXTRA_SIZE as int) {
                        None => Err(RequestError::UnexpectedEof),
                        Some((extra, _)) => Ok((version, le32(extra, 0), le32(extra, 4))),
                    }
                }
            },
        }
    }
}

/// Request type for `FUSE_INIT`.
#[derive(Clone, Copy, Debug)]
pub struct FuseInitRequest {
    version: Version,
    max_readahead: u32,
    flags: u32,
}

impl FuseInitRequest {
    /// The client's version, read-ahead limit and offered flags.
    pub closed spec fn spec_fields(self) -> (Version, u32, u32) {
        (self.version, self.max_readahead, self.flags)
    }

    /// Decodes a `FUSE_INIT` request.
    pub fn from_request(request: &Request) -> (r: Result<FuseInitRequest, RequestError>)
        ensures
            match spec_parse_fuse_init(request.spec_header(), request.spec_bytes()) {
                Ok(v) => r matches Ok(req) && req.spec_fields() == v,
                Err(e) => r matches Err(e2) && e2 == e,
            },
    {
        let mut dec = request.decoder();
        dec.expect_opcode(FUSE_INIT)?;
        let v = dec.next_bytes(FUSE_INIT_IN_VERSION_SIZE as u32)?;
        let version = Version::new(read_u32(v, 0), read_u32(v, 4));
        if version.minor < 6 {
            return Ok(FuseInitRequest { version, max_readahead: 0, flags: 0 });
        }
        let extra = dec.next_bytes(FUSE_INIT_IN_V7P6_EXTRA_SIZE as u32)?;
        Ok(FuseInitRequest { version, max_readahead: read_u32(extra, 0), flags: read_u32(extra, 4) })
    }

    /// The protocol version the client speaks.
    pub fn version(&self) -> (r: Version)
        ensures
            r == self.spec_fields().0,
    {
        self.version
    }

    /// The client's read-ahead limit; zero before protocol 7.6.
    pub fn max_readahead(&self) -> (r: u32)
        ensures
            r == self.spec_fields().1,
    {
        self.max_readahead
    }

    /// The `FUSE_*` init flags the client offers; none before protocol 7.6.
    pub fn flags(&self) -> (r: FuseInitFlags)
        ensures
            r.bits() == self.spec_fields().2,
    {
        FuseInitFlags { bits: self.flags }
    }
}

// }}}

// FuseInitResponse {{{

/// The size of an init reply before protocol 7.5.
pub const FUSE_COMPAT_INIT_OUT_SIZE: usize = 8;

/// The size of an init reply before protocol 7.23.
pub const FUSE_COMPAT_22_INIT_OUT_SIZE: usize = 24;

/// The size of a full init reply.
pub const FUSE_INIT_OUT_SIZE: usize = 64;

/// Two 16-bit fields stored side by side, as one little-endian 32-bit word.
pub open spec fn spec_pack_u16s(lo: u16, hi: u16) -> u32 {
    (lo as u32) | ((hi as u32) << 16u32)
}

/// The full wire encoding of an init reply; the fields this library does not
/// set are zero.
pub open spec fn spec_encode_init_out(raw: FuseInitOut) -> Seq<u8> {
    enc32(raw.major) + enc32(raw.minor) + enc32(raw.max_readahead) + enc32(raw.flags) + enc32(
        spec_pack_u16s(raw.max_background, raw.congestion_threshold),
    ) + enc32(raw.max_write) + enc32(raw.time_gran) + Seq::new(36, |_i: int| 0u8)
}

/// The reply payload for an init reply at the version it names: 8 bytes
/// before 7.5, 24 before 7.23, else 64.
pub open spec fn spec_init_payload(raw: FuseInitOut) -> Seq<u8> {
    if raw.minor < 5 {
        spec_encode_init_out(raw).subrange(0, FUSE_COMPAT_INIT_OUT_SIZE as int)
    } else if raw.minor < 23 {
        spec_encode_init_out(raw).subrange(0, FUSE_COMPAT_22_INIT_OUT_SIZE as int)
    } else {
        spec_encode_init_out(raw)
    }
}

/// Response type for `FUSE_INIT`.
#[derive(Clone, Copy, Debug)]
pub struct FuseInitResponse {
    pub raw: FuseInitOut,
}

impl FuseInitResponse {
    /// A reply naming the latest version, with every tunable zero and no
    /// flags.
    pub open spec fn spec_new() -> FuseInitOut {
        FuseInitOut {
            major: FUSE_KERNEL_VERSION,
            minor: FUSE_KERNEL_MINOR_VERSION,
            max_readahead: 0,
            flags: 0,
            max_background: 0,
            congestion_threshold: 0,
            max_write: 0,
            time_gran: 0,
        }
    }

    /// A reply naming the latest version, with every tunable zero and no
    /// flags.
    pub fn new() -> (r: FuseInitResponse)
        ensures
            r.raw == FuseInitResponse::spec_new(),
    {
        FuseInitResponse {
            raw: FuseInitOut {
                major: FUSE_KERNEL_VERSION,
                minor: FUSE_KERNEL_MINOR_VERSION,
                max_readahead: 0,
                flags: 0,
                max_background: 0,
                congestion_threshold: 0,
                max_write: 0,
                time_gran: 0,
            },
        }
    }

    /// The version the reply names.
    pub fn version(&self) -> (r: Version)
        ensures
            r == (Version { major: self.raw.major, minor: self.raw.minor }),
    {
        Version::new(self.raw.major, self.raw.minor)
    }

    /// Sets the version the reply names.
    pub fn set_version(&mut self, v: Version)
        ensures
            final(self).raw == (FuseInitOut { major: v.major, minor: v.minor, ..old(self).raw }),
    {
        self.raw.major = v.major;
        self.raw.minor = v.minor;
    }

    /// The `FUSE_*` init flags the reply enables.
    pub fn flags(&self) -> (r: FuseInitFlags)
        ensures
            r.bits() == self.raw.flags,
    {
        FuseInitFlags { bits: self.raw.flags }
    }

    /// Sets the init flags the reply enables.
    pub fn set_flags(&mut self, flags: FuseInitFlags)
        ensures
            final(self).raw == (FuseInitOut { flags: flags.bits(), ..old(self).raw }),
    {
        self.raw.flags = flags.bits;
    }

    /// Sets one init flag.
    pub fn set_flag(&mut self, flag: FuseInitFlag)
        ensures
            final(self).raw == (FuseInitOut { flags: old(self).raw.flags | flag.spec_mask(), ..old(self).raw }),
    {
        self.raw.flags = self.raw.flags | flag.mask();
    }

    /// The client's read-ahead limit.
    pub fn max_readahead(&self) -> (r: u32)
        ensures
            r == self.raw.max_readahead,
    {
        self.raw.max_readahead
    }

    /// Sets the client's read-ahead limit.
    pub fn set_max_readahead(&mut self, max_readahead: u32)
        ensures
            final(self).raw == (FuseInitOut { max_readahead, ..old(self).raw }),
    {
        self.raw.max_readahead = max_readahead;
    }

    /// The number of background requests the client may queue.
    pub fn max_background(&self) -> (r: u16)
        ensures
            r == self.raw.max_background,
    {
        self.raw.max_background
    }

    /// Sets the number of background requests the client may queue.
    pub fn set_max_background(&mut self, max_background: u16)
        ensures
            final(self).raw == (FuseInitOut { max_background, ..old(self).raw }),
    {
        self.raw.max_background = max_background;
    }

    /// The number of background requests at which the client is congested.
    pub fn congestion_threshold(&self) -> (r: u16)
        ensures
            r == self.raw.congestion_threshold,
    {
        self.raw.congestion_threshold
    }

    /// Sets the number of background requests at which the client is
    /// congested.
    pub fn set_congestion_threshold(&mut self, congestion_threshold: u16)
        ensures
            final(self).raw == (FuseInitOut { congestion_threshold, ..old(self).raw }),
    {
        self.raw.congestion_threshold = congestion_threshold;
    }

    /// The largest write the client may send.
    pub fn max_write(&self) -> (r: u32)
        ensures
            r == self.raw.max_write,
    {
        self.raw.max_write
    }

    /// Sets the largest write the client may send.
    pub fn set_max_write(&mut self, max_write: u32)
        ensures
            final(self).raw == (FuseInitOut { max_write, ..old(self).raw }),
    {
        self.raw.max_write = max_write;
    }

    /// The granularity of timestamps, in nanoseconds.
    pub fn time_granularity(&self) -> (r: u32)
        ensures
            r == self.raw.time_gran,
    {
        self.raw.time_gran
    }

    /// Sets the granularity of timestamps, in nanoseconds.
    pub fn set_time_granularity(&mut self, time_granularity: u32)
        ensures
            final(self).raw == (FuseInitOut { time_gran: time_granularity, ..old(self).raw }),
    {
        self.raw.time_gran = time_granularity;
    }

    /// The reply payload, as long as the version the reply names expects.
    pub fn payload(&self) -> (r: Vec<u8>)
        ensures
            r@ == spec_init_payload(self.raw),
    {
        let raw = self.raw;
        let packed: u32 = (raw.max_background as u32) | ((raw.congestion_threshold as u32) << 16u32);
        let mut out: Vec<u8> = Vec::new();
        push_u32(&mut out, raw.major);
        push_u32(&mut out, raw.minor);
        push_u32(&mut out, raw.max_readahead);
        push_u32(&mut out, raw.flags);
        push_u32(&mut out, packed);
        push_u32(&mut out, raw.max_write);
        push_u32(&mut out, raw.time_gran);
        push_zeros(&mut out, 36);
        proof {
            lemma_u32_roundtrip(raw.major);
            lemma_u32_roundtrip(raw.minor);
            lemma_u32_roundtrip(raw.max_readahead);
            lemma_u32_roundtrip(raw.flags);
            lemma_u32_roundtrip(packed);
            lemma_u32_roundtrip(raw.max_write);
            lemma_u32_roundtrip(raw.time_gran);
            assert(out@ =~= spec_encode_init_out(raw));
        }
        if raw.minor < 5 {
            out.truncate(FUSE_COMPAT_INIT_OUT_SIZE);
        } else if raw.minor < 23 {
            out.truncate(FUSE_COMPAT_22_INIT_OUT_SIZE);
        }
        out
    }
}

impl FuseReply for FuseInitResponse {
    open spec fn spec_payload(&self, layout: FuseLayout) -> Seq<u8> {
        spec_init_payload(self.raw)
    }

    fn send_to<S: FuseSocket>(&self, reply_sender: FuseReplySender<'_, S>) -> Result<
        (),
        SendError<S::Error>,
    > {
        let payload = self.payload();
        reply_sender.inner.send_1(payload.as_slice())
    }
}

// }}}

// FuseInitFlags {{{

/// The `FUSE_*` flags exchanged in the init handshake.
#[derive(Clone, Copy, Debug, PartialEq, Eq, Structural)]
pub struct FuseInitFlags {
    bits: u32,
}

/// One of the `FUSE_*` init flags.
#[allow(non_camel_case_types)]
#[derive(Clone, Copy, Debug, PartialEq, Eq, Structural)]
pub enum FuseInitFlag {
    ASYNC_READ,
    POSIX_LOCKS,
    FILE_OPS,
    ATOMIC_O_TRUNC,
    EXPORT_SUPPORT,
    BIG_WRITES,
    DONT_MASK,
    SPLICE_WRITE,
    SPLICE_MOVE,
    SPLICE_READ,
    FLOCK_LOCKS,
    HAS_IOCTL_DIR,
    AUTO_INVAL_DATA,
    DO_READDIRPLUS,
    READDIRPLUS_AUTO,
    ASYNC_DIO,
    WRITEBACK_CACHE,
    NO_OPEN_SUPPORT,
    PARALLEL_DIROPS,
    HANDLE_KILLPRIV,
    POSIX_ACL,
    ABORT_ERROR,
    MAX_PAGES,
    CACHE_SYMLINKS,
    NO_OPENDIR_SUPPORT,
    EXPLICIT_INVAL_DATA,
    MAP_ALIGNMENT,
    SUBMOUNTS,
    HANDLE_KILLPRIV_V2,
    SETXATTR_EXT,
}

impl FuseInitFlag {
    /// The bit of this flag.
    pub open spec fn spec_mask(self) -> u32 {
        match self {
            FuseInitFlag::ASYNC_READ => 1u32,
            FuseInitFlag::POSIX_LOCKS => 2u32,
            FuseInitFlag::FILE_OPS => 4u32,
            FuseInitFlag::ATOMIC_O_TRUNC => 8u32,
            FuseInitFlag::EXPORT_SUPPORT => 16u32,
            FuseInitFlag::BIG_WRITES => 32u32,
            FuseInitFlag::DONT_MASK => 64u32,
            FuseInitFlag::SPLICE_WRITE => 128u32,
            FuseInitFlag::SPLICE_MOVE => 256u32,
            FuseInitFlag::SPLICE_READ => 512u32,
            FuseInitFlag::FLOCK_LOCKS => 1024u32,
            FuseInitFlag::HAS_IOCTL_DIR => 2048u32,
            FuseInitFlag::AUTO_INVAL_DATA => 4096u32,
            FuseInitFlag::DO_READDIRPLUS => 8192u32,
            FuseInitFlag::READDIRPLUS_AUTO => 16384u32,
            FuseInitFlag::ASYNC_DIO => 32768u32,
            FuseInitFlag::WRITEBACK_CACHE => 65536u32,
            FuseInitFlag::NO_OPEN_SUPPORT => 131072u32,
            FuseInitFlag::PARALLEL_DIROPS => 262144u32,
            FuseInitFlag::HANDLE_KILLPRIV => 524288u32,
            FuseInitFlag::POSIX_ACL => 1048576u32,
            FuseInitFlag::ABORT_ERROR => 2097152u32,
            FuseInitFlag::MAX_PAGES => 4194304u32,
            FuseInitFlag::CACHE_SYMLINKS => 8388608u32,
            FuseInitFlag::NO_OPENDIR_SUPPORT => 16777216u32,
            FuseInitFlag::EXPLICIT_INVAL_DATA => 33554432u32,
            FuseInitFlag::MAP_ALIGNMENT => 67108864u32,
            FuseInitFlag::SUBMOUNTS => 134217728u32,
            FuseInitFlag::HANDLE_KILLPRIV_V2 => 268435456u32,
            FuseInitFlag::SETXATTR_EXT => 536870912u32,
        }
    }

    /// The bit of this flag.
    pub fn mask(&self) -> (r: u32)
        ensures
            r == self.spec_mask(),
    {
        match self {
            FuseInitFlag::ASYNC_READ => 1u32,
            FuseInitFlag::POSIX_LOCKS => 2u32,
            FuseInitFlag::FILE_OPS => 4u32,
            FuseInitFlag::ATOMIC_O_TRUNC => 8u32,
            FuseInitFlag::EXPORT_SUPPORT => 16u32,
            FuseInitFlag::BIG_WRITES => 32u32,
            FuseInitFlag::DONT_MASK => 64u32,
            FuseInitFlag::SPLICE_WRITE => 128u32,
            FuseInitFlag::SPLICE_MOVE => 256u32,
            FuseInitFlag::SPLICE_READ => 512u32,
            FuseInitFlag::FLOCK_LOCKS => 1024u32,
            FuseInitFlag::HAS_IOCTL_DIR => 2048u32,
            FuseInitFlag::AUTO_INVAL_DATA => 4096u32,
            FuseInitFlag::DO_READDIRPLUS => 8192u32,
            FuseInitFlag::READDIRPLUS_AUTO => 16384u32,
            FuseInitFlag::ASYNC_DIO => 32768u32,
            FuseInitFlag::WRITEBACK_CACHE => 65536u32,
            FuseInitFlag::NO_OPEN_SUPPORT => 131072u32,
            FuseInitFlag::PARALLEL_DIROPS => 262144u32,
            FuseInitFlag::HANDLE_KILLPRIV => 524288u32,
            FuseInitFlag::POSIX_ACL => 1048576u32,
            FuseInitFlag::ABORT_ERROR => 2097152u32,
            FuseInitFlag::MAX_PAGES => 4194304u32,
            FuseInitFlag::CACHE_SYMLINKS => 8388608u32,
            FuseInitFlag::NO_OPENDIR_SUPPORT => 16777216u32,
            FuseInitFlag::EXPLICIT_INVAL_DATA => 33554432u32,
            FuseInitFlag::MAP_ALIGNMENT => 67108864u32,
            FuseInitFlag::SUBMOUNTS => 134217728u32,
            FuseInitFlag::HANDLE_KILLPRIV_V2 => 268435456u32,
            FuseInitFlag::SETXATTR_EXT => 536870912u32,
        }
    }
}

impl FuseInitFlags {
    /// The raw bits.
    pub closed spec fn bits(self) -> u32 {
        self.bits
    }

    /// No flag set.
    pub fn new() -> (r: FuseInitFlags)
        ensures
            r.bits() == 0,
    {
        FuseInitFlags { bits: 0 }
    }

    /// Flags with the raw bits `bits`.
    pub fn from_bits(bits: u32) -> (r: FuseInitFlags)
        ensures
            r.bits() == bits,
    {
        FuseInitFlags { bits }
    }

    /// The raw bits.
    pub fn to_bits(&self) -> (r: u32)
        ensures
            r == self.bits(),
    {
        self.bits
    }

    /// Whether `flag` is set.
    pub fn get(&self, flag: FuseInitFlag) -> (r: bool)
        ensures
            r == (self.bits() & flag.spec_mask() != 0),
    {
        self.bits & flag.mask() != 0
    }

    /// Sets `flag`.
    pub fn set(&mut self, flag: FuseInitFlag)
        ensures
            final(self).bits() == old(self).bits() | flag.spec_mask(),
    {
        self.bits = self.bits | flag.mask();
    }

    /// Clears `flag`.
    pub fn unset(&mut self, flag: FuseInitFlag)
        ensures
            final(self).bits() == old(self).bits() & !flag.spec_mask(),
    {
        self.bits = self.bits & !flag.mask();
    }

    /// The flags set in both `self` and `other`.
    pub fn intersect(&self, other: FuseInitFlags) -> (r: FuseInitFlags)
        ensures
            r.bits() == self.bits() & other.bits(),
    {
        FuseInitFlags { bits: self.bits & other.bits }
    }
}

// }}}

} // verus!
