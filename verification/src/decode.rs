//! Request framing and field-by-field decoding.
//!
//! A request is a [`FuseInHeader`] followed by an opcode-specific body. A
//! [`RequestDecoder`] walks the body from front to back; each read either
//! returns the next field and moves past it, or fails and leaves the decoder
//! where it was.

use vstd::prelude::*;

use crate::error::RequestError;
use crate::kernel::{FuseInHeader, FUSE_IN_HEADER_SIZE};
use crate::node_name::{spec_check_node_name, NodeName};
use crate::node::NodeId;
use crate::time::MAX_NANOS;
use crate::wire::{le32, le64, read_u32, read_u64};

verus! {

broadcast use vstd::seq_lib::group_seq_properties;

// Spec model {{{

/// The result of validating a received buffer as a request.
///
/// A request needs a whole header, a non-zero request ID, and at least as
/// many bytes as its header announces; the buffer length is capped at
/// `u32::MAX` before that comparison.
pub open spec fn spec_check_request(buf: Seq<u8>) -> Result<(), RequestError> {
    if buf.len() < FUSE_IN_HEADER_SIZE {
        Err(RequestError::UnexpectedEof)
    } else if FuseInHeader::spec_parse(buf).unique == 0 {
        Err(RequestError::InvalidRequestId)
    } else if (if buf.len() > u32::MAX { u32::MAX as int } else { buf.len() as int })
        < FuseInHeader::spec_parse(buf).len {
        Err(RequestError::UnexpectedEof)
    } else {
        Ok(())
    }
}

/// The next `n` bytes at `pos` and the position after them, if the request
/// holds that many.
pub open spec fn spec_take(bytes: Seq<u8>, pos: int, n: int) -> Option<(Seq<u8>, int)> {
    if pos + n <= bytes.len() {
        Some((bytes.subrange(pos, pos + n), pos + n))
    } else {
        None
    }
}

/// Whether `k` is the first `NUL` at or after `pos`.
pub open spec fn is_first_nul(bytes: Seq<u8>, pos: int, k: int) -> bool {
    &&& pos <= k < bytes.len()
    &&& bytes[k] == 0u8
    &&& forall|j: int| pos <= j < k ==> bytes[j] != 0u8
}

/// The non-empty `NUL`-terminated string at `pos` (without its `NUL`) and
/// the position after its `NUL`.
pub open spec fn spec_take_cstr(bytes: Seq<u8>, pos: int) -> Option<(Seq<u8>, int)> {
    if exists|k: int| is_first_nul(bytes, pos, k) {
        let k = choose|k: int| is_first_nul(bytes, pos, k);
        if k == pos {
            None
        } else {
            Some((bytes.subrange(pos, k), k + 1))
        }
    } else {
        None
    }
}

/// The node name at `pos` and the position after it.
pub open spec fn spec_take_node_name(bytes: Seq<u8>, pos: int) -> Result<(Seq<u8>, int), RequestError> {
    match spec_take_cstr(bytes, pos) {
        None => Err(RequestError::UnexpectedEof),
        Some((name, next)) => match spec_check_node_name(name) {
            Err(e) => Err(RequestError::NodeNameError(e)),
            Ok(()) => Ok((name, next)),
        },
    }
}

/// The node ID held in a field, or [`RequestError::MissingNodeId`] for zero.
pub open spec fn spec_require_node_id(raw: u64) -> Result<u64, RequestError> {
    if raw == 0 {
        Err(RequestError::MissingNodeId)
    } else {
        Ok(raw)
    }
}

/// Two positions that hold the same `NUL` must be equal.
proof fn lemma_first_nul_unique(bytes: Seq<u8>, pos: int, k1: int, k2: int)
    requires
        is_first_nul(bytes, pos, k1),
        is_first_nul(bytes, pos, k2),
    ensures
        k1 == k2,
{
    if k1 < k2 {
        assert(bytes[k1] != 0u8);
    } else if k2 < k1 {
        assert(bytes[k2] != 0u8);
    }
}

// }}}

// Request {{{

/// A received request: its header and the bytes its header announces.
#[derive(Clone, Copy)]
pub struct Request<'a> {
    header: FuseInHeader,
    bytes: &'a [u8],
}

impl<'a> Request<'a> {
    #[verifier::type_invariant]
    spec fn inv(self) -> bool {
        &&& self.bytes@.len() == self.header.len
        &&& self.header.unique != 0
        &&& self.bytes@.len() >= FUSE_IN_HEADER_SIZE ==> FuseInHeader::spec_parse(self.bytes@)
            == self.header
    }

    /// The request header.
    pub closed spec fn spec_header(self) -> FuseInHeader {
        self.header
    }

    /// The request bytes, header included, as many as the header announces.
    pub closed spec fn spec_bytes(self) -> Seq<u8> {
        self.bytes@
    }

    /// Validates a received buffer as a request.
    pub fn new(buf: &'a [u8]) -> (r: Result<Request<'a>, RequestError>)
        ensures
            r is Ok <==> spec_check_request(buf@) is Ok,
            r matches Err(e) ==> spec_check_request(buf@) == Err::<(), _>(e),
            r matches Ok(req) ==> {
                &&& req.spec_header() == FuseInHeader::spec_parse(buf@)
                &&& req.spec_bytes() == buf@.subrange(0, req.spec_header().len as int)
            },
    {
        if buf.len() < FUSE_IN_HEADER_SIZE {
            return Err(RequestError::UnexpectedEof);
        }
        let header = FuseInHeader::parse(buf);
        if header.unique == 0 {
            return Err(RequestError::InvalidRequestId);
        }
        let buf_len: u32 = if buf.len() > 0xFFFF_FFFFusize {
            0xFFFF_FFFFu32
        } else {
            buf.len() as u32
        };
        if buf_len < header.len {
            return Err(RequestError::UnexpectedEof);
        }
        let bytes = &buf[0..header.len as usize];
        proof {
            if bytes@.len() >= FUSE_IN_HEADER_SIZE {
                assert(bytes@.subrange(0, 4) == buf@.subrange(0, 4));
                assert(bytes@.subrange(4, 8) == buf@.subrange(4, 8));
                assert(bytes@.subrange(8, 16) == buf@.subrange(8, 16));
                assert(bytes@.subrange(16, 24) == buf@.subrange(16, 24));
                assert(bytes@.subrange(24, 28) == buf@.subrange(24, 28));
                assert(bytes@.subrange(28, 32) == buf@.subrange(28, 32));
                assert(bytes@.subrange(32, 36) == buf@.subrange(32, 36));
                assert(bytes@.subrange(36, 40) == buf@.subrange(36, 40));
            }
        }
        Ok(Request { header, bytes })
    }

    /// The request bytes, as many as the header announces.
    pub fn as_bytes(&self) -> (r: &'a [u8])
        ensures
            r@ == self.spec_bytes(),
    {
        self.bytes
    }

    /// The request header.
    pub fn header(&self) -> (r: FuseInHeader)
        ensures
            r == self.spec_header(),
    {
        self.header
    }

    /// The request ID; never zero.
    pub fn request_id(&self) -> (r: u64)
        ensures
            r == self.spec_header().unique,
            r != 0,
    {
        proof {
            use_type_invariant(self);
        }
        self.header.unique
    }

    /// The request body: the bytes after the header.
    pub fn body(&self) -> (r: &'a [u8])
        requires
            self.spec_header().len >= FUSE_IN_HEADER_SIZE,
        ensures
            r@ == self.spec_bytes().subrange(
                FUSE_IN_HEADER_SIZE as int,
                self.spec_bytes().len() as int,
            ),
    {
        proof {
            use_type_invariant(self);
        }
        &self.bytes[FUSE_IN_HEADER_SIZE..self.bytes.len()]
    }

    /// A decoder positioned at the start of the body.
    pub fn decoder(&self) -> (d: RequestDecoder<'a>)
        ensures
            d.spec_header() == self.spec_header(),
            d.spec_bytes() == self.spec_bytes(),
            d.spec_consumed() == FUSE_IN_HEADER_SIZE,
    {
        proof {
            use_type_invariant(self);
        }
        RequestDecoder { header: self.header, bytes: self.bytes, consumed: FUSE_IN_HEADER_SIZE as u32 }
    }
}

// }}}

// RequestDecoder {{{

/// Reads a request body field by field.
pub struct RequestDecoder<'a> {
    header: FuseInHeader,
    bytes: &'a [u8],
    consumed: u32,
}

impl<'a> RequestDecoder<'a> {
    #[verifier::type_invariant]
    spec fn inv(self) -> bool {
        &&& self.bytes@.len() == self.header.len
        &&& FUSE_IN_HEADER_SIZE <= self.consumed
        &&& (self.consumed <= self.header.len || self.consumed == FUSE_IN_HEADER_SIZE)
    }

    /// The header of the request being decoded.
    pub closed spec fn spec_header(self) -> FuseInHeader {
        self.header
    }

    /// The bytes of the request being decoded, header included.
    pub closed spec fn spec_bytes(self) -> Seq<u8> {
        self.bytes@
    }

    /// How many bytes have been read, header included.
    pub closed spec fn spec_consumed(self) -> int {
        self.consumed as int
    }

    /// The header of the request being decoded.
    pub fn header(&self) -> (r: FuseInHeader)
        ensures
            r == self.spec_header(),
    {
        self.header
    }

    /// How many bytes have been read, header included.
    pub fn consumed(&self) -> (r: u32)
        ensures
            r == self.spec_consumed(),
    {
        self.consumed
    }

    /// Checks that the request has opcode `opcode`.
    pub fn expect_opcode(&self, opcode: u32) -> (r: Result<(), RequestError>)
        ensures
            r is Ok <==> self.spec_header().opcode == opcode,
            r matches Err(e) ==> e == RequestError::OpcodeMismatch,
    {
        if self.header.opcode != opcode {
            return Err(RequestError::OpcodeMismatch);
        }
        Ok(())
    }

    /// The position after reading `len` more bytes, if the request holds them.
    fn consume(&self, len: u32) -> (r: Result<u32, RequestError>)
        ensures
            r is Ok <==> self.spec_consumed() + len <= self.spec_bytes().len(),
            r matches Ok(n) ==> n == self.spec_consumed() + len,
            r matches Err(e) ==> e == RequestError::UnexpectedEof,
    {
        proof {
            use_type_invariant(self);
        }
        match self.consumed.checked_add(len) {
            Some(x) => {
                if x > self.header.len {
                    Err(RequestError::UnexpectedEof)
                } else {
                    Ok(x)
                }
            },
            None => Err(RequestError::UnexpectedEof),
        }
    }

    /// Reads the next `len` bytes.
    pub fn next_bytes(&mut self, len: u32) -> (r: Result<&'a [u8], RequestError>)
        ensures
            final(self).spec_header() == old(self).spec_header(),
            final(self).spec_bytes() == old(self).spec_bytes(),
            match spec_take(old(self).spec_bytes(), old(self).spec_consumed(), len as int) {
                None => {
                    &&& r matches Err(e) && e == RequestError::UnexpectedEof
                    &&& final(self).spec_consumed() == old(self).spec_consumed()
                },
                Some((b, next)) => {
                    &&& r matches Ok(out) && out@ == b
                    &&& final(self).spec_consumed() == next
                },
            },
    {
        proof {
            use_type_invariant(&*self);
        }
        let new_consumed = match self.consume(len) {
            Ok(n) => n,
            Err(e) => return Err(e),
        };
        let out = &self.bytes[self.consumed as usize..new_consumed as usize];
        self.consumed = new_consumed;
        Ok(out)
    }

    /// Reads the next `NUL`-terminated string, which must not be empty, and
    /// returns it with its `NUL`.
    pub fn next_nul_terminated_bytes(&mut self) -> (r: Result<&'a [u8], RequestError>)
        ensures
            final(self).spec_header() == old(self).spec_header(),
            final(self).spec_bytes() == old(self).spec_bytes(),
            match spec_take_cstr(old(self).spec_bytes(), old(self).spec_consumed()) {
                None => {
                    &&& r matches Err(e) && e == RequestError::UnexpectedEof
                    &&& final(self).spec_consumed() == old(self).spec_consumed()
                },
                Some((s, next)) => {
                    &&& r matches Ok(out) && out@ == s.push(0u8)
                    &&& final(self).spec_consumed() == next
                },
            },
    {
        proof {
            use_type_invariant(&*self);
        }
        let ghost bytes = self.bytes@;
        let ghost pos = self.consumed as int;
        let mut off: u32 = self.consumed;
        while off < self.header.len
            invariant
                self.bytes@ == bytes,
                self.consumed == pos,
                self.header == old(self).header,
                self.bytes == old(self).bytes,
                self.consumed == old(self).consumed,
                self.bytes@.len() == self.header.len,
                pos <= off,
                off <= self.header.len || off == pos,
                forall|j: int| pos <= j < off ==> bytes[j] != 0u8,
            decreases self.header.len - off,
        {
            if self.bytes[off as usize] == 0 {
                proof {
                    assert(is_first_nul(bytes, pos, off as int));
                    let k = choose|k: int| is_first_nul(bytes, pos, k);
                    lemma_first_nul_unique(bytes, pos, k, off as int);
                }
                let len = off - self.consumed;
                if len == 0 {
                    return Err(RequestError::UnexpectedEof);
                }
                let out = self.next_bytes(len + 1);
                proof {
                    assert(bytes.subrange(pos, off + 1) == bytes.subrange(pos, off as int).push(
                        0u8,
                    ));
                }
                return out;
            }
            off = off + 1;
        }
        proof {
            assert forall|k: int| !is_first_nul(bytes, pos, k) by {
                if is_first_nul(bytes, pos, k) {
                    assert(bytes[k] != 0u8);
                }
            }
        }
        Err(RequestError::UnexpectedEof)
    }

    /// Reads the next `NUL`-terminated string and returns it without its
    /// `NUL`.
    pub fn next_cstr(&mut self) -> (r: Result<&'a [u8], RequestError>)
        ensures
            final(self).spec_header() == old(self).spec_header(),
            final(self).spec_bytes() == old(self).spec_bytes(),
            match spec_take_cstr(old(self).spec_bytes(), old(self).spec_consumed()) {
                None => {
                    &&& r matches Err(e) && e == RequestError::UnexpectedEof
                    &&& final(self).spec_consumed() == old(self).spec_consumed()
                },
                Some((s, next)) => {
                    &&& r matches Ok(out) && out@ == s
                    &&& final(self).spec_consumed() == next
                },
            },
    {
        let bytes = self.next_nul_terminated_bytes()?;
        Ok(to_bytes_without_nul(bytes))
    }

    /// Reads the next node name.
    pub fn next_node_name(&mut self) -> (r: Result<NodeName<'a>, RequestError>)
        ensures
            final(self).spec_header() == old(self).spec_header(),
            final(self).spec_bytes() == old(self).spec_bytes(),
            match spec_take_node_name(old(self).spec_bytes(), old(self).spec_consumed()) {
                Err(e) => r matches Err(e2) && e2 == e,
                Ok((name, next)) => {
                    &&& r matches Ok(n) && n.view_bytes() == name
                    &&& final(self).spec_consumed() == next
                },
            },
    {
        let bytes = self.next_cstr()?;
        match NodeName::from_bytes(bytes) {
            Ok(name) => Ok(name),
            Err(e) => Err(RequestError::NodeNameError(e)),
        }
    }

    /// Reads the next `u32`.
    pub fn next_u32(&mut self) -> (r: Result<u32, RequestError>)
        ensures
            final(self).spec_header() == old(self).spec_header(),
            final(self).spec_bytes() == old(self).spec_bytes(),
            old(self).spec_consumed() + 4 <= old(self).spec_bytes().len() ==> {
                &&& r matches Ok(v) && v == le32(old(self).spec_bytes(), old(self).spec_consumed())
                &&& final(self).spec_consumed() == old(self).spec_consumed() + 4
            },
            old(self).spec_consumed() + 4 > old(self).spec_bytes().len() ==> {
                &&& r matches Err(e) && e == RequestError::UnexpectedEof
                &&& final(self).spec_consumed() == old(self).spec_consumed()
            },
    {
        let b = self.next_bytes(4)?;
        let v = read_u32(b, 0);
        proof {
            assert(b@.subrange(0, 4) == b@);
        }
        Ok(v)
    }
}

/// The string held in `bytes`, without its final `NUL`.
pub fn to_bytes_without_nul<'a>(bytes: &'a [u8]) -> (r: &'a [u8])
    requires
        bytes@.len() > 0,
    ensures
        r@ == bytes@.subrange(0, bytes@.len() - 1),
{
    &bytes[0..bytes.len() - 1]
}

/// The node ID held in a field; zero is refused.
pub fn node_id(raw: u64) -> (r: Result<NodeId, RequestError>)
    ensures
        r is Ok <==> raw != 0,
        r matches Ok(n) ==> n@ == raw,
        r matches Err(e) ==> e == RequestError::MissingNodeId,
{
    match NodeId::new(raw) {
        Some(x) => Ok(x),
        None => Err(RequestError::MissingNodeId),
    }
}

/// Checks the nanoseconds part of a timestamp.
pub fn check_timespec_nanos(nanos: u32) -> (r: Result<(), RequestError>)
    ensures
        r is Ok <==> nanos <= MAX_NANOS,
        r matches Err(e) ==> e == RequestError::TimestampOverflow,
{
    if nanos > MAX_NANOS {
        return Err(RequestError::TimestampOverflow);
    }
    Ok(())
}

// }}}

} // verus!
