//! Reply framing: a [`FuseOutHeader`] followed by the reply payload.

use vstd::prelude::*;

use crate::kernel::{FuseOutHeader, FUSE_OUT_HEADER_SIZE};
use crate::wire::push_bytes;

verus! {

/// The largest reply the protocol can carry, in bytes.
pub const MAX_REPLY_LEN: u64 = 0xFFFF_FFFF;

/// `a + b`, saturating at `u64::MAX`.
pub open spec fn sat_add(a: int, b: int) -> int {
    if a + b > u64::MAX {
        u64::MAX as int
    } else {
        a + b
    }
}

/// The header of a reply to request `unique` with error code `error` and a
/// payload of `payload_len` bytes.
pub open spec fn spec_reply_header(unique: u64, error: i32, payload_len: int) -> FuseOutHeader {
    FuseOutHeader { len: (FUSE_OUT_HEADER_SIZE + payload_len) as u32, error, unique }
}

/// The bytes of a reply to request `unique` with error code `error`
/// carrying `payload`.
pub open spec fn spec_reply(unique: u64, error: i32, payload: Seq<u8>) -> Seq<u8> {
    spec_reply_header(unique, error, payload.len() as int).spec_encode() + payload
}

/// The length of a reply whose payload has `payload_len` bytes, if the
/// protocol can carry it.
pub fn checked_response_len(payload_len: usize) -> (r: Option<usize>)
    ensures
        r is Some <==> FUSE_OUT_HEADER_SIZE + payload_len <= MAX_REPLY_LEN,
        r matches Some(n) ==> n == FUSE_OUT_HEADER_SIZE + payload_len,
{
    let response_len = FUSE_OUT_HEADER_SIZE.checked_add(payload_len)?;
    if response_len as u64 > MAX_REPLY_LEN {
        return None;
    }
    Some(response_len)
}

/// Frames `payload` as a reply to request `unique` with error code `error`.
pub fn frame_reply(unique: u64, error: i32, payload: &[u8]) -> (r: Vec<u8>)
    requires
        FUSE_OUT_HEADER_SIZE + payload@.len() <= MAX_REPLY_LEN,
    ensures
        r@ == spec_reply(unique, error, payload@),
{
    let header = FuseOutHeader {
        len: (FUSE_OUT_HEADER_SIZE + payload.len()) as u32,
        error,
        unique,
    };
    let mut out: Vec<u8> = Vec::new();
    header.encode(&mut out);
    push_bytes(&mut out, payload);
    proof {
        assert(out@ =~= spec_reply(unique, error, payload@));
    }
    out
}

/// The reply carrying an error: a header alone.
pub fn error_reply(unique: u64, error: i32) -> (r: Vec<u8>)
    ensures
        r@ == spec_reply(unique, error, Seq::empty()),
{
    let empty: [u8; 0] = [];
    frame_reply(unique, error, empty.as_slice())
}

/// The length of a reply whose payload is made of parts of lengths `l1`
/// to `l4`, computed with saturating additions.
pub open spec fn spec_reply_len(l1: int, l2: int, l3: int, l4: int) -> int {
    sat_add(sat_add(sat_add(sat_add(FUSE_OUT_HEADER_SIZE as int, l1), l2), l3), l4)
}

/// Frames a successful reply to request `unique` whose payload is the
/// concatenation of `b1` to `b4`, or returns the reply's length if the
/// protocol cannot carry it.
pub fn encode_reply(unique: u64, b1: &[u8], b2: &[u8], b3: &[u8], b4: &[u8]) -> (r: Result<
    Vec<u8>,
    u64,
>)
    ensures
        ({
            let len = spec_reply_len(b1@.len() as int, b2@.len() as int, b3@.len() as int, b4@.len() as int);
            if len > MAX_REPLY_LEN {
                r == Err::<Vec<u8>, u64>(len as u64)
            } else {
                r matches Ok(v) && v@ == spec_reply(unique, 0, b1@ + b2@ + b3@ + b4@)
            }
        }),
{
    let mut len: u64 = FUSE_OUT_HEADER_SIZE as u64;
    len = len.saturating_add(b1.len() as u64);
    len = len.saturating_add(b2.len() as u64);
    len = len.saturating_add(b3.len() as u64);
    len = len.saturating_add(b4.len() as u64);
    if len > MAX_REPLY_LEN {
        return Err(len);
    }
    let mut payload: Vec<u8> = Vec::new();
    push_bytes(&mut payload, b1);
    push_bytes(&mut payload, b2);
    push_bytes(&mut payload, b3);
    push_bytes(&mut payload, b4);
    proof {
        assert(payload@ =~= b1@ + b2@ + b3@ + b4@);
    }
    Ok(frame_reply(unique, 0, payload.as_slice()))
}

} // verus!
