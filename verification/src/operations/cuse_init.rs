//! The `CUSE_INIT` operation: the handshake that opens a CUSE session.

use vstd::prelude::*;

use crate::decode::{spec_take, Request};
use crate::error::RequestError;
use crate::kernel::{
    CuseInitOut,
    FuseInHeader,
    CUSE_INIT,
    CUSE_UNRESTRICTED_IOCTL,
    FUSE_IN_HEADER_SIZE,
    FUSE_KERNEL_MINOR_VERSION,
    FUSE_KERNEL_VERSION,
};
use crate::server::{CuseReply, CuseReplySender, CuseSocket, SendError, Version};
use crate::wire::{enc32, le32, lemma_u32_roundtrip, push_bytes, push_u32, push_zeros, read_u32};

verus! {

// CuseDeviceName {{{

/// The name of a CUSE device: non-empty, with no `NUL` byte.
#[derive(Clone, Copy, Debug)]
pub struct CuseDeviceName<'a> {
    bytes: &'a [u8],
}

/// Whether `bytes` can name a CUSE device.
pub open spec fn is_valid_device_name(bytes: Seq<u8>) -> bool {
    &&& bytes.len() > 0
    &&& forall|i: int| 0 <= i < bytes.len() ==> bytes[i] != 0u8
}

impl<'a> CuseDeviceName<'a> {
    #[verifier::type_invariant]
    spec fn inv(self) -> bool {
        is_valid_device_name(self.bytes@)
    }

    /// The bytes of the name.
    pub closed spec fn view_bytes(self) -> Seq<u8> {
        self.bytes@
    }

    /// The device name held in `bytes`, if it is valid.
    pub fn from_bytes(bytes: &'a [u8]) -> (r: Option<CuseDeviceName<'a>>)
        ensures
            r is Some <==> is_valid_device_name(bytes@),
            r matches Some(n) ==> n.view_bytes() == bytes@,
    {
        if bytes.len() == 0 {
            return None;
        }
        let mut i: usize = 0;
        while i < bytes.len()
            invariant
                i <= bytes@.len(),
                forall|j: int| 0 <= j < i ==> bytes@[j] != 0u8,
            decreases bytes@.len() - i,
        {
            if bytes[i] == 0 {
                return None;
            }
            i = i + 1;
        }
        Some(CuseDeviceName { bytes })
    }

    /// The bytes of the name.
    pub fn as_bytes(&self) -> (r: &'a [u8])
        ensures
            r@ == self.view_bytes(),
            is_valid_device_name(r@),
    {
        proof {
            use_type_invariant(self);
        }
        self.bytes
    }
}

/// The device number of a CUSE device.
#[derive(Clone, Copy, Debug, PartialEq, Eq, Structural)]
pub struct CuseDeviceNumber {
    pub major: u32,
    pub minor: u32,
}

impl CuseDeviceNumber {
    /// The device number `major:minor`.
    pub fn new(major: u32, minor: u32) -> (r: CuseDeviceNumber)
        ensures
            r == (CuseDeviceNumber { major, minor }),
    {
        CuseDeviceNumber { major, minor }
    }
}

// }}}

// CuseInitRequest {{{

/// The size of the body of a `CUSE_INIT` request (`cuse_init_in`).
pub const CUSE_INIT_IN_SIZE: usize = 16;

/// What a `CUSE_INIT` request holds: the client's version and the flags it
/// offers.
pub open spec fn spec_parse_cuse_init(h: FuseInHeader, bytes: Seq<u8>) -> Result<(Version, u32), RequestError> {
    if h.opcode != CUSE_INIT {
        Err(RequestError::OpcodeMismatch)
    } else {
        match spec_take(bytes, FUSE_IN_HEADER_SIZE as int, CUSE_INIT_IN_SIZE as int) {
            None => Err(RequestError::UnexpectedEof),
            Some((b, _)) => Ok((Version { major: le32(b, 0), minor: le32(b, 4) }, le32(b, 12))),
        }
    }
}

/// Request type for `CUSE_INIT`.
#[derive(Clone, Copy, Debug)]
pub struct CuseInitRequest {
    version: Version,
    flags: u32,
}

impl CuseInitRequest {
    /// The client's version and offered flags.
    pub closed spec fn spec_fields(self) -> (Version, u32) {
        (self.version, self.flags)
    }

    /// Decodes a `CUSE_INIT` request.
    pub fn from_request(request: &Request) -> (r: Result<CuseInitRequest, RequestError>)
        ensures
            match spec_parse_cuse_init(request.spec_header(), request.spec_bytes()) {
                Ok(v) => r matches Ok(req) && req.spec_fields() == v,
                Err(e) => r matches Err(e2) && e2 == e,
            },
    {
        let mut dec = request.decoder();
        dec.expect_opcode(CUSE_INIT)?;
        let b = dec.next_bytes(CUSE_INIT_IN_SIZE as u32)?;
        Ok(CuseInitRequest { version: Version::new(read_u32(b, 0), read_u32(b, 4)), flags: read_u32(b, 12) })
    }

    /// The protocol version the client speaks.
    pub fn version(&self) -> (r: Version)
        ensures
            r == self.spec_fields().0,
    {
        self.version
    }

    /// The `CUSE_*` init flags the client offers.
    pub fn flags(&self) -> (r: CuseInitFlags)
        ensures
            r.bits() == self.spec_fields().1,
    {
        CuseInitFlags { bits: self.flags }
    }
}

// }}}

// CuseInitResponse {{{

/// The size of the fixed part of a `CUSE_INIT` reply (`cuse_init_out`).
pub const CUSE_INIT_OUT_SIZE: usize = 80;

/// The wire encoding of the fixed part of a CUSE init reply.
pub open spec fn spec_encode_cuse_init_out(raw: CuseInitOut) -> Seq<u8> {
    enc32(raw.major) + enc32(raw.minor) + enc32(0) + enc32(raw.flags) + enc32(raw.max_read) + enc32(
        raw.max_write,
    ) + enc32(raw.dev_major) + enc32(raw.dev_minor) + Seq::new(48, |_i: int| 0u8)
}

/// The device information of a CUSE init reply: `DEVNAME=` and the name,
/// `NUL`-terminated, or nothing for a reply without a name.
pub open spec fn spec_device_info(name: Option<Seq<u8>>) -> Seq<u8> {
    match name {
        None => Seq::empty(),
        Some(n) => seq![68u8, 69u8, 86u8, 78u8, 65u8, 77u8, 69u8, 61u8] + n + seq![0u8],
    }
}

/// Response type for `CUSE_INIT`.
#[derive(Clone, Copy, Debug)]
pub struct CuseInitResponse<'a> {
    pub raw: CuseInitOut,
    pub device_name: Option<CuseDeviceName<'a>>,
}

impl<'a> CuseInitResponse<'a> {
    /// The reply's fixed part with the latest version and every other field
    /// zero.
    pub open spec fn spec_new() -> CuseInitOut {
        CuseInitOut {
            major: FUSE_KERNEL_VERSION,
            minor: FUSE_KERNEL_MINOR_VERSION,
            flags: 0,
            max_read: 0,
            max_write: 0,
            dev_major: 0,
            dev_minor: 0,
        }
    }

    /// The device name the reply carries, if any.
    pub open spec fn spec_device_name(self) -> Option<Seq<u8>> {
        match self.device_name {
            None => None,
            Some(n) => Some(n.view_bytes()),
        }
    }

    /// A reply that creates a device named `device_name`.
    pub fn new(device_name: CuseDeviceName<'a>) -> (r: CuseInitResponse<'a>)
        ensures
            r.raw == CuseInitResponse::spec_new(),
            r.spec_device_name() == Some(device_name.view_bytes()),
    {
        CuseInitResponse {
            raw: CuseInitOut {
                major: FUSE_KERNEL_VERSION,
                minor: FUSE_KERNEL_MINOR_VERSION,
                flags: 0,
                max_read: 0,
                max_write: 0,
                dev_major: 0,
                dev_minor: 0,
            },
            device_name: Some(device_name),
        }
    }

    /// A reply that names no device, sent to refuse a client.
    pub fn new_nameless() -> (r: CuseInitResponse<'a>)
        ensures
            r.raw == CuseInitResponse::spec_new(),
            r.spec_device_name() is None,
    {
        CuseInitResponse {
            raw: CuseInitOut {
                major: FUSE_KERNEL_VERSION,
                minor: FUSE_KERNEL_MINOR_VERSION,
                flags: 0,
                max_read: 0,
                max_write: 0,
                dev_major: 0,
                dev_minor: 0,
            },
            device_name: None,
        }
    }

    /// Sets the version the reply names.
    pub fn set_version(&mut self, v: Version)
        ensures
            final(self).raw == (CuseInitOut { major: v.major, minor: v.minor, ..old(self).raw }),
            final(self).spec_device_name() == old(self).spec_device_name(),
    {
        self.raw.major = v.major;
        self.raw.minor = v.minor;
    }

    /// Sets the number of the device to create.
    pub fn set_device_number(&mut self, number: CuseDeviceNumber)
        ensures
            final(self).raw == (CuseInitOut {
                dev_major: number.major,
                dev_minor: number.minor,
                ..old(self).raw
            }),
            final(self).spec_device_name() == old(self).spec_device_name(),
    {
        self.raw.dev_major = number.major;
        self.raw.dev_minor = number.minor;
    }

    /// The `CUSE_*` init flags the reply enables.
    pub fn flags(&self) -> (r: CuseInitFlags)
        ensures
            r.bits() == self.raw.flags,
    {
        CuseInitFlags { bits: self.raw.flags }
    }

    /// Sets the init flags the reply enables.
    pub fn set_flags(&mut self, flags: CuseInitFlags)
        ensures
            final(self).raw == (CuseInitOut { flags: flags.bits(), ..old(self).raw }),
            final(self).spec_device_name() == old(self).spec_device_name(),
    {
        self.raw.flags = flags.bits;
    }

    /// The largest read the client may send.
    pub fn max_read(&self) -> (r: u32)
        ensures
            r == self.raw.max_read,
    {
        self.raw.max_read
    }

    /// Sets the largest read the client may send.
    pub fn set_max_read(&mut self, max_read: u32)
        ensures
            final(self).raw == (CuseInitOut { max_read, ..old(self).raw }),
            final(self).spec_device_name() == old(self).spec_device_name(),
    {
        self.raw.max_read = max_read;
    }

    /// The largest write the client may send.
    pub fn max_write(&self) -> (r: u32)
        ensures
            r == self.raw.max_write,
    {
        self.raw.max_write
    }

    /// Sets the largest write the client may send.
    pub fn set_max_write(&mut self, max_write: u32)
        ensures
            final(self).raw == (CuseInitOut { max_write, ..old(self).raw }),
            final(self).spec_device_name() == old(self).spec_device_name(),
    {
        self.raw.max_write = max_write;
    }

    /// The reply payload: the fixed part, then the device information.
    pub fn payload(&self) -> (r: Vec<u8>)
        ensures
            r@ == spec_encode_cuse_init_out(self.raw) + spec_device_info(self.spec_device_name()),
    {
        let raw = self.raw;
        let mut out: Vec<u8> = Vec::new();
        push_u32(&mut out, raw.major);
        push_u32(&mut out, raw.minor);
        push_u32(&mut out, 0);
        push_u32(&mut out, raw.flags);
        push_u32(&mut out, raw.max_read);
        push_u32(&mut out, raw.max_write);
        push_u32(&mut out, raw.dev_major);
        push_u32(&mut out, raw.dev_minor);
        push_zeros(&mut out, 48);
        proof {
            assert(out@ =~= spec_encode_cuse_init_out(raw));
        }
        let ghost fixed = out@;
        match self.device_name {
            None => {
                proof {
                    assert(out@ =~= fixed + spec_device_info(self.spec_device_name()));
                }
            },
            Some(name) => {
                let prefix: [u8; 8] = [68u8, 69u8, 86u8, 78u8, 65u8, 77u8, 69u8, 61u8];
                push_bytes(&mut out, prefix.as_slice());
                push_bytes(&mut out, name.as_bytes());
                out.push(0u8);
                proof {
                    assert(prefix@ =~= seq![68u8, 69u8, 86u8, 78u8, 65u8, 77u8, 69u8, 61u8]);
                    assert(out@ =~= fixed + spec_device_info(self.spec_device_name()));
                }
            },
        }
        out
    }
}

impl CuseReply for CuseInitResponse<'_> {
    open spec fn spec_payload(&self) -> Seq<u8> {
        spec_encode_cuse_init_out(self.raw) + spec_device_info(self.spec_device_name())
    }

    fn send_to<S: CuseSocket>(&self, reply_sender: CuseReplySender<'_, S>) -> Result<
        (),
        SendError<S::Error>,
    > {
        let payload = self.payload();
        reply_sender.inner.send_1(payload.as_slice())
    }
}

// }}}

// CuseInitFlags {{{

/// The `CUSE_*` flags exchanged in the init handshake.
#[derive(Clone, Copy, Debug, PartialEq, Eq, Structural)]
pub struct CuseInitFlags {
    bits: u32,
}

/// One of the `CUSE_*` init flags.
#[allow(non_camel_case_types)]
#[derive(Clone, Copy, Debug, PartialEq, Eq, Structural)]
pub enum CuseInitFlag {
    /// The device accepts ioctls of any shape.
    UNRESTRICTED_IOCTL,
}

impl CuseInitFlag {
    /// The bit of this flag.
    pub open spec fn spec_mask(self) -> u32 {
        match self {
            CuseInitFlag::UNRESTRICTED_IOCTL => CUSE_UNRESTRICTED_IOCTL,
        }
    }

    /// The bit of this flag.
    pub fn mask(&self) -> (r: u32)
        ensures
            r == self.spec_mask(),
    {
        match self {
            CuseInitFlag::UNRESTRICTED_IOCTL => CUSE_UNRESTRICTED_IOCTL,
        }
    }
}

impl CuseInitFlags {
    /// The raw bits.
    pub closed spec fn bits(self) -> u32 {
        self.bits
    }

    /// No flag set.
    pub fn new() -> (r: CuseInitFlags)
        ensures
            r.bits() == 0,
    {
        CuseInitFlags { bits: 0 }
    }

    /// Flags with the raw bits `bits`.
    pub fn from_bits(bits: u32) -> (r: CuseInitFlags)
        ensures
            r.bits() == bits,
    {
        CuseInitFlags { bits }
    }

    /// The raw bits.
    pub fn to_bits(&self) -> (r: u32)
        ensures
            r == self.bits(),
    {
        self.bits
    }

    /// Whether `flag` is set.
    pub fn get(&self, flag: CuseInitFlag) -> (r: bool)
        ensures
            r == (self.bits() & flag.spec_mask() != 0),
    {
        self.bits & flag.mask() != 0
    }

    /// Sets `flag`.
    pub fn set(&mut self, flag: CuseInitFlag)
        ensures
            final(self).bits() == old(self).bits() | flag.spec_mask(),
    {
        self.bits = self.bits | flag.mask();
    }

    /// The flags set in both `self` and `other`.
    pub fn intersect(&self, other: CuseInitFlags) -> (r: CuseInitFlags)
        ensures
            r.bits() == self.bits() & other.bits(),
    {
        CuseInitFlags { bits: self.bits & other.bits }
    }
}

// }}}

} // verus!
