//! The `FUSE_WRITE` operation: write data to an open file.

use vstd::prelude::*;

use crate::ascii::spec_dec;
use crate::ascii::is_ascii_bytes;
use crate::debug::{
    ascii_of,
    dec_text,
    flags_text,
    hex_text,
    lock_owner_text,
    quoted_text,
    spec_debug_struct,
    spec_flags_text,
    spec_hex_text,
    spec_lock_owner_text,
    spec_quoted_text,
    to_chars,
    DebugStruct,
    FlagNames,
};

use crate::decode::{node_id, spec_take, Request};
use crate::error::RequestError;
use crate::kernel::{
    FuseInHeader,
    FuseWriteIn,
    FUSE_IN_HEADER_SIZE,
    FUSE_ROOT_ID,
    FUSE_WRITE,
    FUSE_WRITE_CACHE,
    FUSE_WRITE_IN_SIZE,
    FUSE_WRITE_IN_V7P1_SIZE,
    FUSE_WRITE_KILL_SUIDGID,
    FUSE_WRITE_LOCKOWNER,
    FUSE_WRITE_OUT_SIZE,
};
use crate::lock::LockOwner;
use crate::node::NodeId;
use crate::server::{FuseLayout, 
    CuseReply,
    CuseReplySender,
    CuseRequest,
    CuseSocket,
    FuseReply,
    FuseReplySender,
    FuseRequest,
    FuseSocket,
    SendError,
};
use crate::wire::{enc32, push_u32, read_u32, read_u64};

verus! {

// WriteRequest {{{

/// What a write request holds once decoded.
pub struct WriteFields {
    /// The node ID of the file, or the root ID where the request names none.
    pub node_id: u64,
    pub offset: u64,
    pub handle: u64,
    pub value: Seq<u8>,
    pub write_flags: u32,
    pub lock_owner: Option<u64>,
    pub open_flags: u32,
}

/// The size of the fixed part of a write request at protocol minor version
/// `version_minor`: the lock owner and open flags arrived in 7.9.
pub open spec fn spec_write_body_size(version_minor: u32) -> int {
    if version_minor >= 9 {
        FUSE_WRITE_IN_SIZE as int
    } else {
        FUSE_WRITE_IN_V7P1_SIZE as int
    }
}

/// What a `FUSE_WRITE` request holds: a fixed part whose `size` field gives
/// the length of the data that follows it. A CUSE request names no node; a
/// FUSE request must.
pub open spec fn spec_parse_write(
    h: FuseInHeader,
    bytes: Seq<u8>,
    version_minor: u32,
    is_cuse: bool,
) -> Result<WriteFields, RequestError> {
    if h.opcode != FUSE_WRITE {
        Err(RequestError::OpcodeMismatch)
    } else if !is_cuse && h.nodeid == 0 {
        Err(RequestError::MissingNodeId)
    } else {
        match spec_take(bytes, FUSE_IN_HEADER_SIZE as int, spec_write_body_size(version_minor)) {
            None => Err(RequestError::UnexpectedEof),
            Some((body, pos)) => {
                let raw = FuseWriteIn::spec_parse(body);
                match spec_take(bytes, pos, raw.size as int) {
                    None => Err(RequestError::UnexpectedEof),
                    Some((value, _)) => Ok(
                        WriteFields {
                            node_id: if h.nodeid == 0 { FUSE_ROOT_ID } else { h.nodeid },
                            offset: raw.offset,
                            handle: raw.fh,
                            value: value,
                            write_flags: raw.write_flags,
                            lock_owner: if version_minor >= 9 && raw.write_flags
                                & FUSE_WRITE_LOCKOWNER != 0 {
                                Some(raw.lock_owner)
                            } else {
                                None
                            },
                            open_flags: if version_minor >= 9 { raw.flags } else { 0 },
                        },
                    ),
                }
            },
        }
    }
}

/// Request type for `FUSE_WRITE`.
#[derive(Clone, Copy, Debug)]
pub struct WriteRequest<'a> {
    node_id: u64,
    offset: u64,
    handle: u64,
    value: &'a [u8],
    flags: WriteRequestFlags,
    lock_owner: Option<LockOwner>,
    open_flags: u32,
}

impl<'a> WriteRequest<'a> {
    /// The decoded fields of this request.
    pub closed spec fn spec_fields(self) -> WriteFields {
        WriteFields {
            node_id: self.node_id,
            offset: self.offset,
            handle: self.handle,
            value: self.value@,
            write_flags: self.flags.bits,
            lock_owner: match self.lock_owner {
                Some(o) => Some(o.0),
                None => None,
            },
            open_flags: self.open_flags,
        }
    }

    /// Decodes a write request.
    fn decode_request(request: &Request<'a>, version_minor: u32, is_cuse: bool) -> (r: Result<
        WriteRequest<'a>,
        RequestError,
    >)
        ensures
            match spec_parse_write(
                request.spec_header(),
                request.spec_bytes(),
                version_minor,
                is_cuse,
            ) {
                Ok(v) => r matches Ok(req) && req.spec_fields() == v,
                Err(e) => r matches Err(e2) && e2 == e,
            },
    {
        let mut dec = request.decoder();
        dec.expect_opcode(FUSE_WRITE)?;
        let header = dec.header();
        if !is_cuse {
            node_id(header.nodeid)?;
        }
        let n = if header.nodeid == 0 { FUSE_ROOT_ID } else { header.nodeid };
        if version_minor >= 9 {
            let b = dec.next_bytes(FUSE_WRITE_IN_SIZE as u32)?;
            let raw = FuseWriteIn::parse(b);
            let value = dec.next_bytes(raw.size)?;
            let lock_owner = if raw.write_flags & FUSE_WRITE_LOCKOWNER != 0 {
                Some(LockOwner(raw.lock_owner))
            } else {
                None
            };
            Ok(
                WriteRequest {
                    node_id: n,
                    offset: raw.offset,
                    handle: raw.fh,
                    value,
                    flags: WriteRequestFlags { bits: raw.write_flags },
                    lock_owner,
                    open_flags: raw.flags,
                },
            )
        } else {
            let b = dec.next_bytes(FUSE_WRITE_IN_V7P1_SIZE as u32)?;
            let fh = read_u64(b, 0);
            let offset = read_u64(b, 8);
            let size = read_u32(b, 16);
            let write_flags = read_u32(b, 20);
            let value = dec.next_bytes(size)?;
            Ok(
                WriteRequest {
                    node_id: n,
                    offset,
                    handle: fh,
                    value,
                    flags: WriteRequestFlags { bits: write_flags },
                    lock_owner: None,
                    open_flags: 0,
                },
            )
        }
    }

    /// Decodes a `FUSE_WRITE` request of a CUSE session.
    pub fn from_cuse_request(request: &CuseRequest<'a>) -> (r: Result<WriteRequest<'a>, RequestError>)
        ensures
            match spec_parse_write(
                request.inner.spec_header(),
                request.inner.spec_bytes(),
                request.layout.spec_version_minor(),
                true,
            ) {
                Ok(v) => r matches Ok(req) && req.spec_fields() == v,
                Err(e) => r matches Err(e2) && e2 == e,
            },
    {
        WriteRequest::decode_request(&request.inner, request.layout.version_minor(), true)
    }

    /// Decodes a `FUSE_WRITE` request of a FUSE session.
    pub fn from_fuse_request(request: &FuseRequest<'a>) -> (r: Result<WriteRequest<'a>, RequestError>)
        ensures
            match spec_parse_write(
                request.inner.spec_header(),
                request.inner.spec_bytes(),
                request.layout.spec_version_minor(),
                false,
            ) {
                Ok(v) => r matches Ok(req) && req.spec_fields() == v,
                Err(e) => r matches Err(e2) && e2 == e,
            },
    {
        WriteRequest::decode_request(&request.inner, request.layout.version_minor(), false)
    }

    /// The file written to; the root ID where the request names none.
    pub fn node_id(&self) -> (r: NodeId)
        ensures
            r@ == (if self.spec_fields().node_id == 0 { FUSE_ROOT_ID } else { self.spec_fields().node_id }),
    {
        match NodeId::new(self.node_id) {
            Some(n) => n,
            None => NodeId::root(),
        }
    }

    /// The offset in the file where the data goes.
    pub fn offset(&self) -> (r: u64)
        ensures
            r == self.spec_fields().offset,
    {
        self.offset
    }

    /// The handle chosen when the file was opened, or zero if none was.
    pub fn handle(&self) -> (r: u64)
        ensures
            r == self.spec_fields().handle,
    {
        self.handle
    }

    /// The data to write.
    pub fn value(&self) -> (r: &'a [u8])
        ensures
            r@ == self.spec_fields().value,
    {
        self.value
    }

    /// The `FUSE_WRITE_*` flags of the request.
    pub fn flags(&self) -> (r: WriteRequestFlags)
        ensures
            r.bits() == self.spec_fields().write_flags,
    {
        self.flags
    }

    /// The owner of the locks held by the writer, if the request names one.
    pub fn lock_owner(&self) -> (r: Option<LockOwner>)
        ensures
            match self.spec_fields().lock_owner {
                Some(o) => r == Some(LockOwner(o)),
                None => r is None,
            },
    {
        self.lock_owner
    }

    /// The flags the file was opened with; zero before protocol 7.9.
    pub fn open_flags(&self) -> (r: u32)
        ensures
            r == self.spec_fields().open_flags,
    {
        self.open_flags
    }
}

// }}}

// WriteResponse {{{

/// Response type for `FUSE_WRITE`.
#[derive(Clone, Copy, Debug)]
pub struct WriteResponse {
    size: u32,
}

impl View for WriteResponse {
    type V = u32;

    /// The number of bytes reported written.
    closed spec fn view(&self) -> u32 {
        self.size
    }
}

/// The reply payload reporting `size` bytes written (`fuse_write_out`).
pub open spec fn spec_write_payload(size: u32) -> Seq<u8> {
    enc32(size) + enc32(0)
}

impl WriteResponse {
    /// A response reporting no bytes written.
    pub fn new() -> (r: WriteResponse)
        ensures
            r@ == 0,
    {
        WriteResponse { size: 0 }
    }

    /// Sets the number of bytes written.
    pub fn set_size(&mut self, size: u32)
        ensures
            final(self)@ == size,
    {
        self.size = size;
    }

    /// The number of bytes reported written.
    pub fn size(&self) -> (r: u32)
        ensures
            r == self@,
    {
        self.size
    }

    /// The reply payload.
    pub fn payload(&self) -> (r: Vec<u8>)
        ensures
            r@ == spec_write_payload(self@),
            r@.len() == FUSE_WRITE_OUT_SIZE,
    {
        let mut out: Vec<u8> = Vec::new();
        push_u32(&mut out, self.size);
        push_u32(&mut out, 0);
        proof {
            crate::wire::lemma_u32_roundtrip(self.size);
            crate::wire::lemma_u32_roundtrip(0);
            assert(out@ =~= spec_write_payload(self@));
        }
        out
    }
}

impl CuseReply for WriteResponse {
    open spec fn spec_payload(&self) -> Seq<u8> {
        spec_write_payload(self@)
    }

    fn send_to<S: CuseSocket>(&self, reply_sender: CuseReplySender<'_, S>) -> Result<
        (),
        SendError<S::Error>,
    > {
        let payload = self.payload();
        reply_sender.inner.send_1(payload.as_slice())
    }
}

impl FuseReply for WriteResponse {
    open spec fn spec_payload(&self, layout: FuseLayout) -> Seq<u8> {
        spec_write_payload(self@)
    }

    fn send_to<S: FuseSocket>(&self, reply_sender: FuseReplySender<'_, S>) -> Result<
        (),
        SendError<S::Error>,
    > {
        let payload = self.payload();
        reply_sender.inner.send_1(payload.as_slice())
    }
}

// }}}

// WriteRequestFlags {{{

/// The `FUSE_WRITE_*` flags of a write request.
#[derive(Clone, Copy, Debug, PartialEq, Eq, Structural)]
pub struct WriteRequestFlags {
    bits: u32,
}

/// One of the `FUSE_WRITE_*` flags.
#[allow(non_camel_case_types)]
#[derive(Clone, Copy, Debug, PartialEq, Eq, Structural)]
pub enum WriteRequestFlag {
    /// The write comes from the page cache (delayed write).
    WRITE_CACHE,
    /// The request names the owner of the writer's locks.
    WRITE_LOCKOWNER,
    /// The server should clear the set-user-ID and set-group-ID bits.
    WRITE_KILL_SUIDGID,
}

impl WriteRequestFlag {
    /// The bit of this flag.
    pub open spec fn spec_mask(self) -> u32 {
        match self {
            WriteRequestFlag::WRITE_CACHE => FUSE_WRITE_CACHE,
            WriteRequestFlag::WRITE_LOCKOWNER => FUSE_WRITE_LOCKOWNER,
            WriteRequestFlag::WRITE_KILL_SUIDGID => FUSE_WRITE_KILL_SUIDGID,
        }
    }

    /// The bit of this flag.
    pub fn mask(&self) -> (r: u32)
        ensures
            r == self.spec_mask(),
    {
        match self {
            WriteRequestFlag::WRITE_CACHE => FUSE_WRITE_CACHE,
            WriteRequestFlag::WRITE_LOCKOWNER => FUSE_WRITE_LOCKOWNER,
            WriteRequestFlag::WRITE_KILL_SUIDGID => FUSE_WRITE_KILL_SUIDGID,
        }
    }
}

impl WriteRequestFlags {
    /// The raw bits.
    pub closed spec fn bits(self) -> u32 {
        self.bits
    }

    /// Flags with the raw bits `bits`.
    pub fn from_bits(bits: u32) -> (r: WriteRequestFlags)
        ensures
            r.bits() == bits,
    {
        WriteRequestFlags { bits }
    }

    /// The raw bits.
    pub fn to_bits(&self) -> (r: u32)
        ensures
            r == self.bits(),
    {
        self.bits
    }

    /// Whether `flag` is set.
    pub fn get(&self, flag: WriteRequestFlag) -> (r: bool)
        ensures
            r == (self.bits() & flag.spec_mask() != 0),
    {
        self.bits & flag.mask() != 0
    }
}

// }}}


impl WriteResponse {
    /// The `{:#?}` rendering of this value.
    pub fn debug_string(&self) -> (r: String)
        ensures
            r@ == to_chars(spec_debug_struct(ascii_of("WriteResponse"@), seq![(ascii_of("size"@), spec_dec(self@ as nat))])),
    {
        proof {
            reveal_strlit("WriteResponse");
            reveal_strlit("size");
        }
        let d = DebugStruct::new("WriteResponse");
        let d = d.field("size", dec_text(self.size as u64).as_slice());
        proof {
            assert(d.spec_fields() =~= seq![(ascii_of("size"@), spec_dec(self@ as nat))]);
        }
        d.finish()
    }
}


impl FlagNames for WriteRequestFlags {
    open spec fn spec_flag_name(mask: u32) -> Option<Seq<u8>> {
        if mask == FUSE_WRITE_CACHE {
            Some(seq![87u8, 82u8, 73u8, 84u8, 69u8, 95u8, 67u8, 65u8, 67u8, 72u8, 69u8])
        } else if mask == FUSE_WRITE_LOCKOWNER {
            Some(seq![87u8, 82u8, 73u8, 84u8, 69u8, 95u8, 76u8, 79u8, 67u8, 75u8, 79u8, 87u8, 78u8, 69u8, 82u8])
        } else if mask == FUSE_WRITE_KILL_SUIDGID {
            Some(seq![87u8, 82u8, 73u8, 84u8, 69u8, 95u8, 75u8, 73u8, 76u8, 76u8, 95u8, 83u8, 85u8, 73u8, 68u8, 71u8, 73u8, 68u8])
        } else {
            None
        }
    }

    fn flag_name(mask: u32) -> (r: Option<&'static [u8]>) {
        if mask == FUSE_WRITE_CACHE {
            let b: &'static [u8] = &[87u8, 82u8, 73u8, 84u8, 69u8, 95u8, 67u8, 65u8, 67u8, 72u8, 69u8];
            proof {
                assert(b@ =~= seq![87u8, 82u8, 73u8, 84u8, 69u8, 95u8, 67u8, 65u8, 67u8, 72u8, 69u8]);
            }
            Some(b)
        } else if mask == FUSE_WRITE_LOCKOWNER {
            let b: &'static [u8] = &[87u8, 82u8, 73u8, 84u8, 69u8, 95u8, 76u8, 79u8, 67u8, 75u8, 79u8, 87u8, 78u8, 69u8, 82u8];
            proof {
                assert(b@ =~= seq![87u8, 82u8, 73u8, 84u8, 69u8, 95u8, 76u8, 79u8, 67u8, 75u8, 79u8, 87u8, 78u8, 69u8, 82u8]);
            }
            Some(b)
        } else if mask == FUSE_WRITE_KILL_SUIDGID {
            let b: &'static [u8] = &[87u8, 82u8, 73u8, 84u8, 69u8, 95u8, 75u8, 73u8, 76u8, 76u8, 95u8, 83u8, 85u8, 73u8, 68u8, 71u8, 73u8, 68u8];
            proof {
                assert(b@ =~= seq![87u8, 82u8, 73u8, 84u8, 69u8, 95u8, 75u8, 73u8, 76u8, 76u8, 95u8, 83u8, 85u8, 73u8, 68u8, 71u8, 73u8, 68u8]);
            }
            Some(b)
        } else {
            None
        }
    }
}

/// How write request flags are shown in a request's rendering.
pub open spec fn spec_write_flags_text(bits: u32) -> Seq<u8> {
    spec_flags_text::<WriteRequestFlags>(ascii_of("WriteRequestFlags"@), bits)
}

impl WriteRequestFlags {
    /// How these flags are shown in a request's rendering.
    pub fn debug_text(&self) -> (r: Vec<u8>)
        ensures
            r@ == spec_write_flags_text(self.bits()),
            is_ascii_bytes(r@),
    {
        proof {
            reveal_strlit("WriteRequestFlags");
        }
        flags_text::<WriteRequestFlags>("WriteRequestFlags", self.bits)
    }
}

impl<'a> WriteRequest<'a> {
    /// The `{:#?}` rendering of this request.
    pub fn debug_string(&self) -> (r: String)
        ensures
            r@ == to_chars(spec_debug_struct(ascii_of("WriteRequest"@), seq![
                (ascii_of("node_id"@), spec_dec(self.spec_fields().node_id as nat)),
                (ascii_of("offset"@), spec_dec(self.spec_fields().offset as nat)),
                (ascii_of("handle"@), spec_dec(self.spec_fields().handle as nat)),
                (ascii_of("value"@), spec_quoted_text(self.spec_fields().value)),
                (ascii_of("flags"@), spec_write_flags_text(self.spec_fields().write_flags)),
                (ascii_of("lock_owner"@), spec_lock_owner_text(match self.spec_fields().lock_owner {
                    Some(o) => Some(LockOwner(o)),
                    None => None,
                })),
                (ascii_of("open_flags"@), spec_hex_text(self.spec_fields().open_flags as nat, 8)),
            ])),
    {
        proof {
            reveal_strlit("WriteRequest");
            reveal_strlit("node_id");
            reveal_strlit("offset");
            reveal_strlit("handle");
            reveal_strlit("value");
            reveal_strlit("flags");
            reveal_strlit("lock_owner");
            reveal_strlit("open_flags");
        }
        let d = DebugStruct::new("WriteRequest");
        let d = d.field("node_id", dec_text(self.node_id).as_slice());
        let d = d.field("offset", dec_text(self.offset).as_slice());
        let d = d.field("handle", dec_text(self.handle).as_slice());
        let d = d.field("value", quoted_text(self.value).as_slice());
        let d = d.field("flags", self.flags.debug_text().as_slice());
        let d = d.field("lock_owner", lock_owner_text(self.lock_owner).as_slice());
        let d = d.field("open_flags", hex_text(self.open_flags as u64, 8).as_slice());
        proof {
            assert(d.spec_fields() =~= seq![
                (ascii_of("node_id"@), spec_dec(self.spec_fields().node_id as nat)),
                (ascii_of("offset"@), spec_dec(self.spec_fields().offset as nat)),
                (ascii_of("handle"@), spec_dec(self.spec_fields().handle as nat)),
                (ascii_of("value"@), spec_quoted_text(self.spec_fields().value)),
                (ascii_of("flags"@), spec_write_flags_text(self.spec_fields().write_flags)),
                (ascii_of("lock_owner"@), spec_lock_owner_text(match self.spec_fields().lock_owner {
                    Some(o) => Some(LockOwner(o)),
                    None => None,
                })),
                (ascii_of("open_flags"@), spec_hex_text(self.spec_fields().open_flags as nat, 8)),
            ]);
        }
        d.finish()
    }
}

} // verus!
