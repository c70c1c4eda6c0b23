//! The `FUSE_STATFS` operation: report filesystem statistics.

use vstd::prelude::*;

use crate::decode::{node_id, spec_require_node_id};
use crate::error::RequestError;
use crate::kernel::{FuseInHeader, FUSE_COMPAT_STATFS_SIZE, FUSE_KSTATFS_SIZE, FUSE_STATFS};
use crate::node::NodeId;
use crate::server::{FuseLayout, FuseReply, FuseReplySender, FuseRequest, FuseSocket, SendError};
use crate::wire::{enc32, enc64, lemma_u32_roundtrip, lemma_u64_roundtrip, push_u32, push_u64, push_zeros};

use crate::debug::{ascii_of, spec_debug_struct, to_chars, DebugStruct};
use crate::ascii::spec_dec;

verus! {

// StatfsRequest {{{

/// What a `FUSE_STATFS` request holds: the node ID it was sent for.
pub open spec fn spec_parse_statfs(h: FuseInHeader) -> Result<u64, RequestError> {
    if h.opcode != FUSE_STATFS {
        Err(RequestError::OpcodeMismatch)
    } else {
        spec_require_node_id(h.nodeid)
    }
}

/// Request type for `FUSE_STATFS`.
#[derive(Clone, Copy, Debug)]
pub struct StatfsRequest {
    node_id: NodeId,
}

impl View for StatfsRequest {
    type V = u64;

    closed spec fn view(&self) -> u64 {
        self.node_id@
    }
}

impl StatfsRequest {
    /// Decodes a `FUSE_STATFS` request.
    pub fn from_fuse_request(request: &FuseRequest) -> (r: Result<StatfsRequest, RequestError>)
        ensures
            match spec_parse_statfs(request.inner.spec_header()) {
                Ok(v) => r matches Ok(req) && req@ == v,
                Err(e) => r matches Err(e2) && e2 == e,
            },
    {
        let dec = request.decoder();
        dec.expect_opcode(FUSE_STATFS)?;
        Ok(StatfsRequest { node_id: node_id(dec.header().nodeid)? })
    }

    /// The node ID the request was sent for.
    pub fn node_id(&self) -> (r: NodeId)
        ensures
            r@ == self@,
    {
        self.node_id
    }
}

// }}}

// StatfsAttributes {{{

/// Filesystem statistics (`fuse_kstatfs`).
#[derive(Clone, Copy, Debug, PartialEq, Eq)]
pub struct FuseKstatfs {
    pub blocks: u64,
    pub bfree: u64,
    pub bavail: u64,
    pub files: u64,
    pub ffree: u64,
    pub bsize: u32,
    pub namelen: u32,
    pub frsize: u32,
}

impl FuseKstatfs {
    /// The wire encoding: the fields in order, a padding word, and six spare
    /// words, all zero.
    pub open spec fn spec_encode(self) -> Seq<u8> {
        enc64(self.blocks) + enc64(self.bfree) + enc64(self.bavail) + enc64(self.files) + enc64(
            self.ffree,
        ) + enc32(self.bsize) + enc32(self.namelen) + enc32(self.frsize) + Seq::new(
            28,
            |_i: int| 0u8,
        )
    }

    /// Appends the wire encoding to `out`.
    pub fn encode(&self, out: &mut Vec<u8>)
        ensures
            final(out)@ == old(out)@ + self.spec_encode(),
    {
        push_u64(out, self.blocks);
        push_u64(out, self.bfree);
        push_u64(out, self.bavail);
        push_u64(out, self.files);
        push_u64(out, self.ffree);
        push_u32(out, self.bsize);
        push_u32(out, self.namelen);
        push_u32(out, self.frsize);
        push_zeros(out, 28);
        proof {
            assert(final(out)@ =~= old(out)@ + self.spec_encode());
        }
    }
}

/// The encoding of filesystem statistics is [`FUSE_KSTATFS_SIZE`] bytes long.
pub proof fn lemma_kstatfs_encoding_len(st: FuseKstatfs)
    ensures
        st.spec_encode().len() == FUSE_KSTATFS_SIZE,
{
    lemma_u64_roundtrip(st.blocks);
    lemma_u64_roundtrip(st.bfree);
    lemma_u64_roundtrip(st.bavail);
    lemma_u64_roundtrip(st.files);
    lemma_u64_roundtrip(st.ffree);
    lemma_u32_roundtrip(st.bsize);
    lemma_u32_roundtrip(st.namelen);
    lemma_u32_roundtrip(st.frsize);
}

/// Filesystem statistics reported by a server.
#[derive(Clone, Copy, Debug)]
pub struct StatfsAttributes {
    raw: FuseKstatfs,
}

impl View for StatfsAttributes {
    type V = FuseKstatfs;

    closed spec fn view(&self) -> FuseKstatfs {
        self.raw
    }
}

impl StatfsAttributes {
    /// Statistics with every field zero.
    pub fn new() -> (r: StatfsAttributes)
        ensures
            r@ == (FuseKstatfs {
                blocks: 0,
                bfree: 0,
                bavail: 0,
                files: 0,
                ffree: 0,
                bsize: 0,
                namelen: 0,
                frsize: 0,
            }),
    {
        StatfsAttributes {
            raw: FuseKstatfs {
                blocks: 0,
                bfree: 0,
                bavail: 0,
                files: 0,
                ffree: 0,
                bsize: 0,
                namelen: 0,
                frsize: 0,
            },
        }
    }

    /// The raw statistics record.
    pub fn raw(&self) -> (r: &FuseKstatfs)
        ensures
            *r == self@,
    {
        &self.raw
    }

    /// Total number of blocks.
    pub fn block_count(&self) -> (r: u64)
        ensures
            r == self@.blocks,
    {
        self.raw.blocks
    }

    /// Sets the total number of blocks.
    pub fn set_block_count(&mut self, block_count: u64)
        ensures
            final(self)@ == (FuseKstatfs { blocks: block_count, ..old(self)@ }),
    {
        self.raw.blocks = block_count;
    }

    /// Block size.
    pub fn block_size(&self) -> (r: u32)
        ensures
            r == self@.bsize,
    {
        self.raw.bsize
    }

    /// Sets the block size.
    pub fn set_block_size(&mut self, block_size: u32)
        ensures
            final(self)@ == (FuseKstatfs { bsize: block_size, ..old(self)@ }),
    {
        self.raw.bsize = block_size;
    }

    /// Number of blocks available to unprivileged users.
    pub fn blocks_available(&self) -> (r: u64)
        ensures
            r == self@.bavail,
    {
        self.raw.bavail
    }

    /// Sets the number of blocks available to unprivileged users.
    pub fn set_blocks_available(&mut self, blocks_available: u64)
        ensures
            final(self)@ == (FuseKstatfs { bavail: blocks_available, ..old(self)@ }),
    {
        self.raw.bavail = blocks_available;
    }

    /// Number of free blocks.
    pub fn blocks_free(&self) -> (r: u64)
        ensures
            r == self@.bfree,
    {
        self.raw.bfree
    }

    /// Sets the number of free blocks.
    pub fn set_blocks_free(&mut self, blocks_free: u64)
        ensures
            final(self)@ == (FuseKstatfs { bfree: blocks_free, ..old(self)@ }),
    {
        self.raw.bfree = blocks_free;
    }

    /// Fragment size.
    pub fn fragment_size(&self) -> (r: u32)
        ensures
            r == self@.frsize,
    {
        self.raw.frsize
    }

    /// Sets the fragment size.
    pub fn set_fragment_size(&mut self, fragment_size: u32)
        ensures
            final(self)@ == (FuseKstatfs { frsize: fragment_size, ..old(self)@ }),
    {
        self.raw.frsize = fragment_size;
    }

    /// Total number of inodes.
    pub fn inode_count(&self) -> (r: u64)
        ensures
            r == self@.files,
    {
        self.raw.files
    }

    /// Sets the total number of inodes.
    pub fn set_inode_count(&mut self, inode_count: u64)
        ensures
            final(self)@ == (FuseKstatfs { files: inode_count, ..old(self)@ }),
    {
        self.raw.files = inode_count;
    }

    /// Number of free inodes.
    pub fn inodes_free(&self) -> (r: u64)
        ensures
            r == self@.ffree,
    {
        self.raw.ffree
    }

    /// Sets the number of free inodes.
    pub fn set_inodes_free(&mut self, inodes_free: u64)
        ensures
            final(self)@ == (FuseKstatfs { ffree: inodes_free, ..old(self)@ }),
    {
        self.raw.ffree = inodes_free;
    }

    /// Maximum length of a file name.
    pub fn max_filename_length(&self) -> (r: u32)
        ensures
            r == self@.namelen,
    {
        self.raw.namelen
    }

    /// Sets the maximum length of a file name.
    pub fn set_max_filename_length(&mut self, max_filename_length: u32)
        ensures
            final(self)@ == (FuseKstatfs { namelen: max_filename_length, ..old(self)@ }),
    {
        self.raw.namelen = max_filename_length;
    }
}

// }}}

// StatfsResponse {{{

/// Response type for `FUSE_STATFS`.
#[derive(Clone, Copy, Debug)]
pub struct StatfsResponse {
    attributes: StatfsAttributes,
}

/// The reply payload for statistics `st` at protocol minor version
/// `version_minor`: before 7.4 only the first 48 bytes are sent.
pub open spec fn spec_statfs_payload(st: FuseKstatfs, version_minor: u32) -> Seq<u8> {
    if version_minor < 4 {
        st.spec_encode().subrange(0, FUSE_COMPAT_STATFS_SIZE as int)
    } else {
        st.spec_encode()
    }
}

impl View for StatfsResponse {
    type V = FuseKstatfs;

    closed spec fn view(&self) -> FuseKstatfs {
        self.attributes@
    }
}

impl StatfsResponse {
    /// A response with every statistic zero.
    pub fn new() -> (r: StatfsResponse)
        ensures
            r@ == (FuseKstatfs {
                blocks: 0,
                bfree: 0,
                bavail: 0,
                files: 0,
                ffree: 0,
                bsize: 0,
                namelen: 0,
                frsize: 0,
            }),
    {
        StatfsResponse { attributes: StatfsAttributes::new() }
    }

    /// A response reporting `attributes`.
    pub fn from_attributes(attributes: StatfsAttributes) -> (r: StatfsResponse)
        ensures
            r@ == attributes@,
    {
        StatfsResponse { attributes }
    }

    /// The statistics reported.
    pub fn attributes(&self) -> (r: &StatfsAttributes)
        ensures
            r@ == self@,
    {
        &self.attributes
    }

    /// Sets the total number of blocks.
    pub fn set_block_count(&mut self, v: u64)
        ensures
            final(self)@ == (FuseKstatfs { blocks: v, ..old(self)@ }),
    {
        self.attributes.set_block_count(v);
    }

    /// Sets the block size.
    pub fn set_block_size(&mut self, v: u32)
        ensures
            final(self)@ == (FuseKstatfs { bsize: v, ..old(self)@ }),
    {
        self.attributes.set_block_size(v);
    }

    /// Sets the number of blocks available to unprivileged users.
    pub fn set_blocks_available(&mut self, v: u64)
        ensures
            final(self)@ == (FuseKstatfs { bavail: v, ..old(self)@ }),
    {
        self.attributes.set_blocks_available(v);
    }

    /// Sets the number of free blocks.
    pub fn set_blocks_free(&mut self, v: u64)
        ensures
            final(self)@ == (FuseKstatfs { bfree: v, ..old(self)@ }),
    {
        self.attributes.set_blocks_free(v);
    }

    /// Sets the fragment size.
    pub fn set_fragment_size(&mut self, v: u32)
        ensures
            final(self)@ == (FuseKstatfs { frsize: v, ..old(self)@ }),
    {
        self.attributes.set_fragment_size(v);
    }

    /// Sets the total number of inodes.
    pub fn set_inode_count(&mut self, v: u64)
        ensures
            final(self)@ == (FuseKstatfs { files: v, ..old(self)@ }),
    {
        self.attributes.set_inode_count(v);
    }

    /// Sets the number of free inodes.
    pub fn set_inodes_free(&mut self, v: u64)
        ensures
            final(self)@ == (FuseKstatfs { ffree: v, ..old(self)@ }),
    {
        self.attributes.set_inodes_free(v);
    }

    /// Sets the maximum length of a file name.
    pub fn set_max_filename_length(&mut self, v: u32)
        ensures
            final(self)@ == (FuseKstatfs { namelen: v, ..old(self)@ }),
    {
        self.attributes.set_max_filename_length(v);
    }

    /// The reply payload at protocol minor version `version_minor`.
    pub fn payload(&self, version_minor: u32) -> (r: Vec<u8>)
        ensures
            r@ == spec_statfs_payload(self@, version_minor),
    {
        let mut out: Vec<u8> = Vec::new();
        self.attributes.raw().encode(&mut out);
        proof {
            assert(out@ =~= self@.spec_encode());
            lemma_kstatfs_encoding_len(self@);
        }
        if version_minor < 4 {
            out.truncate(FUSE_COMPAT_STATFS_SIZE);
        }
        out
    }
}

impl FuseReply for StatfsResponse {
    open spec fn spec_payload(&self, layout: FuseLayout) -> Seq<u8> {
        spec_statfs_payload(self@, layout.spec_version_minor())
    }

    fn send_to<S: FuseSocket>(&self, reply_sender: FuseReplySender<'_, S>) -> Result<
        (),
        SendError<S::Error>,
    > {
        let payload = self.payload(reply_sender.layout.version_minor());
        reply_sender.inner.send_1(payload.as_slice())
    }
}

// }}}


impl StatfsRequest {
    /// The `{:#?}` rendering of this value.
    pub fn debug_string(&self) -> (r: String)
        ensures
            r@ == to_chars(spec_debug_struct(ascii_of("StatfsRequest"@), seq![(ascii_of("node_id"@), spec_dec(self@ as nat))])),
    {
        proof {
            reveal_strlit("StatfsRequest");
            reveal_strlit("node_id");
        }
        let d = DebugStruct::new("StatfsRequest");
        let d = d.field("node_id", crate::debug::dec_text(self.node_id.get()).as_slice());
        proof {
            assert(d.spec_fields() =~= seq![(ascii_of("node_id"@), spec_dec(self@ as nat))]);
        }
        d.finish()
    }
}

impl StatfsResponse {
    /// The `{:#?}` rendering of this value.
    pub fn debug_string(&self) -> (r: String)
        ensures
            r@ == to_chars(spec_debug_struct(ascii_of("StatfsResponse"@), seq![(ascii_of("block_count"@), spec_dec(self@.blocks as nat)), (ascii_of("block_size"@), spec_dec(self@.bsize as nat)), (ascii_of("blocks_available"@), spec_dec(self@.bavail as nat)), (ascii_of("blocks_free"@), spec_dec(self@.bfree as nat)), (ascii_of("fragment_size"@), spec_dec(self@.frsize as nat)), (ascii_of("inode_count"@), spec_dec(self@.files as nat)), (ascii_of("inodes_free"@), spec_dec(self@.ffree as nat)), (ascii_of("max_filename_length"@), spec_dec(self@.namelen as nat))])),
    {
        proof {
            reveal_strlit("StatfsResponse");
            reveal_strlit("block_count");
            reveal_strlit("block_size");
            reveal_strlit("blocks_available");
            reveal_strlit("blocks_free");
            reveal_strlit("fragment_size");
            reveal_strlit("inode_count");
            reveal_strlit("inodes_free");
            reveal_strlit("max_filename_length");
        }
        let d = DebugStruct::new("StatfsResponse");
        let d = d.field("block_count", crate::debug::dec_text(self.attributes.raw.blocks).as_slice());
        let d = d.field("block_size", crate::debug::dec_text(self.attributes.raw.bsize as u64).as_slice());
        let d = d.field("blocks_available", crate::debug::dec_text(self.attributes.raw.bavail).as_slice());
        let d = d.field("blocks_free", crate::debug::dec_text(self.attributes.raw.bfree).as_slice());
        let d = d.field("fragment_size", crate::debug::dec_text(self.attributes.raw.frsize as u64).as_slice());
        let d = d.field("inode_count", crate::debug::dec_text(self.attributes.raw.files).as_slice());
        let d = d.field("inodes_free", crate::debug::dec_text(self.attributes.raw.ffree).as_slice());
        let d = d.field("max_filename_length", crate::debug::dec_text(self.attributes.raw.namelen as u64).as_slice());
        proof {
            assert(d.spec_fields() =~= seq![(ascii_of("block_count"@), spec_dec(self@.blocks as nat)), (ascii_of("block_size"@), spec_dec(self@.bsize as nat)), (ascii_of("blocks_available"@), spec_dec(self@.bavail as nat)), (ascii_of("blocks_free"@), spec_dec(self@.bfree as nat)), (ascii_of("fragment_size"@), spec_dec(self@.frsize as nat)), (ascii_of("inode_count"@), spec_dec(self@.files as nat)), (ascii_of("inodes_free"@), spec_dec(self@.ffree as nat)), (ascii_of("max_filename_length"@), spec_dec(self@.namelen as nat))]);
        }
        d.finish()
    }
}


impl StatfsAttributes {
    /// The `{:#?}` rendering of this value.
    pub fn debug_string(&self) -> (r: String)
        ensures
            r@ == to_chars(spec_debug_struct(ascii_of("StatfsAttributes"@), seq![(ascii_of("block_count"@), spec_dec(self@.blocks as nat)), (ascii_of("block_size"@), spec_dec(self@.bsize as nat)), (ascii_of("blocks_available"@), spec_dec(self@.bavail as nat)), (ascii_of("blocks_free"@), spec_dec(self@.bfree as nat)), (ascii_of("fragment_size"@), spec_dec(self@.frsize as nat)), (ascii_of("inode_count"@), spec_dec(self@.files as nat)), (ascii_of("inodes_free"@), spec_dec(self@.ffree as nat)), (ascii_of("max_filename_length"@), spec_dec(self@.namelen as nat))])),
    {
        proof {
            reveal_strlit("StatfsAttributes");
            reveal_strlit("block_count");
            reveal_strlit("block_size");
            reveal_strlit("blocks_available");
            reveal_strlit("blocks_free");
            reveal_strlit("fragment_size");
            reveal_strlit("inode_count");
            reveal_strlit("inodes_free");
            reveal_strlit("max_filename_length");
        }
        let d = DebugStruct::new("StatfsAttributes");
        let d = d.field("block_count", crate::debug::dec_text(self.raw.blocks).as_slice());
        let d = d.field("block_size", crate::debug::dec_text(self.raw.bsize as u64).as_slice());
        let d = d.field("blocks_available", crate::debug::dec_text(self.raw.bavail).as_slice());
        let d = d.field("blocks_free", crate::debug::dec_text(self.raw.bfree).as_slice());
        let d = d.field("fragment_size", crate::debug::dec_text(self.raw.frsize as u64).as_slice());
        let d = d.field("inode_count", crate::debug::dec_text(self.raw.files).as_slice());
        let d = d.field("inodes_free", crate::debug::dec_text(self.raw.ffree).as_slice());
        let d = d.field("max_filename_length", crate::debug::dec_text(self.raw.namelen as u64).as_slice());
        proof {
            assert(d.spec_fields() =~= seq![(ascii_of("block_count"@), spec_dec(self@.blocks as nat)), (ascii_of("block_size"@), spec_dec(self@.bsize as nat)), (ascii_of("blocks_available"@), spec_dec(self@.bavail as nat)), (ascii_of("blocks_free"@), spec_dec(self@.bfree as nat)), (ascii_of("fragment_size"@), spec_dec(self@.frsize as nat)), (ascii_of("inode_count"@), spec_dec(self@.files as nat)), (ascii_of("inodes_free"@), spec_dec(self@.ffree as nat)), (ascii_of("max_filename_length"@), spec_dec(self@.namelen as nat))]);
        }
        d.finish()
    }
}

} // verus!
