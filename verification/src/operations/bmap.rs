//! The `FUSE_BMAP` operation: map a file block to a device block.

use vstd::prelude::*;

use crate::ascii::spec_dec;
use crate::debug::{ascii_of, dec_text, spec_debug_struct, to_chars, DebugStruct};

use crate::decode::spec_take;
use crate::error::RequestError;
use crate::kernel::{FuseBmapIn, FuseInHeader, FUSE_BMAP, FUSE_BMAP_IN_SIZE, FUSE_IN_HEADER_SIZE};
use crate::server::{FuseLayout, FuseReply, FuseReplySender, FuseRequest, FuseSocket, SendError};
use crate::wire::{enc64, push_u64};

verus! {

/// What a `FUSE_BMAP` request holds: (node, block, block size).
pub open spec fn spec_parse_bmap(h: FuseInHeader, bytes: Seq<u8>) -> Result<(u64, u64, u32), RequestError> {
    if h.opcode != FUSE_BMAP {
        Err(RequestError::OpcodeMismatch)
    } else {
        match spec_take(bytes, FUSE_IN_HEADER_SIZE as int, FUSE_BMAP_IN_SIZE as int) {
            None => Err(RequestError::UnexpectedEof),
            Some((b, _)) => Ok(
                (h.nodeid, FuseBmapIn::spec_parse(b).block, FuseBmapIn::spec_parse(b).blocksize),
            ),
        }
    }
}

/// Request type for `FUSE_BMAP`.
#[derive(Clone, Copy, Debug)]
pub struct BmapRequest {
    node_id: u64,
    block: u64,
    blocksize: u32,
}

impl View for BmapRequest {
    type V = (u64, u64, u32);

    closed spec fn view(&self) -> (u64, u64, u32) {
        (self.node_id, self.block, self.blocksize)
    }
}

impl BmapRequest {
    /// Decodes a `FUSE_BMAP` request.
    pub fn from_fuse_request(request: &FuseRequest) -> (r: Result<BmapRequest, RequestError>)
        ensures
            match spec_parse_bmap(request.inner.spec_header(), request.inner.spec_bytes()) {
                Ok(v) => r matches Ok(req) && req@ == v,
                Err(e) => r matches Err(e2) && e2 == e,
            },
    {
        let mut dec = request.decoder();
        dec.expect_opcode(FUSE_BMAP)?;
        let header = dec.header();
        let b = dec.next_bytes(FUSE_BMAP_IN_SIZE as u32)?;
        let raw = FuseBmapIn::parse(b);
        Ok(BmapRequest { node_id: header.nodeid, block: raw.block, blocksize: raw.blocksize })
    }

    /// The node ID, as sent.
    pub fn node_id(&self) -> (r: u64)
        ensures
            r == self@.0,
    {
        self.node_id
    }

    /// The file block to map.
    pub fn block(&self) -> (r: u64)
        ensures
            r == self@.1,
    {
        self.block
    }

    /// The block size.
    pub fn blocksize(&self) -> (r: u32)
        ensures
            r == self@.2,
    {
        self.blocksize
    }
}

/// Response type for `FUSE_BMAP`: the device block.
#[derive(Clone, Copy, Debug)]
pub struct BmapResponse {
    block: u64,
}

impl BmapResponse {
    /// A response mapping to block zero.
    pub fn new() -> (r: BmapResponse)
        ensures
            r.spec_block() == 0,
    {
        BmapResponse { block: 0 }
    }

    /// The device block.
    pub closed spec fn spec_block(self) -> u64 {
        self.block
    }

    /// The device block.
    pub fn block(&self) -> (r: u64)
        ensures
            r == self.spec_block(),
    {
        self.block
    }

    /// Sets the device block.
    pub fn set_block(&mut self, block: u64)
        ensures
            final(self).spec_block() == block,
    {
        self.block = block;
    }

    /// The reply payload (`fuse_bmap_out`).
    pub fn payload(&self) -> (r: Vec<u8>)
        ensures
            r@ == enc64(self.spec_block()),
    {
        let mut out: Vec<u8> = Vec::new();
        push_u64(&mut out, self.block);
        proof {
            assert(out@ =~= enc64(self.spec_block()));
        }
        out
    }
}

impl FuseReply for BmapResponse {
    open spec fn spec_payload(&self, layout: FuseLayout) -> Seq<u8> {
        enc64(self.spec_block())
    }

    fn send_to<S: FuseSocket>(&self, reply_sender: FuseReplySender<'_, S>) -> Result<
        (),
        SendError<S::Error>,
    > {
        let payload = self.payload();
        reply_sender.inner.send_1(payload.as_slice())
    }
}


impl BmapResponse {
    /// The `{:#?}` rendering of this value.
    pub fn debug_string(&self) -> (r: String)
        ensures
            r@ == to_chars(spec_debug_struct(ascii_of("BmapResponse"@), seq![(ascii_of("block"@), spec_dec(self.spec_block() as nat))])),
    {
        proof {
            reveal_strlit("BmapResponse");
            reveal_strlit("block");
        }
        let d = DebugStruct::new("BmapResponse");
        let d = d.field("block", dec_text(self.block).as_slice());
        proof {
            assert(d.spec_fields() =~= seq![(ascii_of("block"@), spec_dec(self.spec_block() as nat))]);
        }
        d.finish()
    }
}

} // verus!
