//! The `FUSE_READDIRPLUS` operation: list a directory with each entry's
//! attributes.

use vstd::prelude::*;

use crate::decode::{node_id, spec_take};
use crate::error::RequestError;
use crate::file_mode::S_IFMT;
use crate::kernel::{
    FuseInHeader,
    FuseReadIn,
    FUSE_DIRENTPLUS_SIZE,
    FUSE_IN_HEADER_SIZE,
    FUSE_KERNEL_MINOR_VERSION,
    FUSE_READDIRPLUS,
    FUSE_READ_IN_SIZE,
    FUSE_READ_IN_V7P1_SIZE,
};
use crate::node::{lemma_entry_encoding_len, lemma_node_roundtrip, Node, NodeId};
use crate::node_name::{is_valid_node_name, lemma_check_node_name_ok, NodeName, NAME_MAX};
use crate::server::FuseRequest;
use crate::wire::{enc32, enc64, le32, le64, lemma_u32_roundtrip, lemma_u64_roundtrip, push_bytes, push_u32, push_u64, push_zeros, read_u32, read_u64};

use crate::debug::{ascii_of, spec_debug_struct, to_chars, DebugStruct};
use crate::ascii::spec_dec;

verus! {

// ReaddirplusRequest {{{

/// What a readdirplus request holds once decoded.
pub struct ReaddirplusFields {
    pub node_id: u64,
    pub size: u32,
    pub offset: u64,
    pub handle: u64,
    pub open_flags: u32,
}

/// The size of the body of a read-like request at protocol minor version
/// `version_minor`: the lock owner and open flags arrived in 7.9.
pub open spec fn spec_read_body_size(version_minor: u32) -> int {
    if version_minor >= 9 {
        FUSE_READ_IN_SIZE as int
    } else {
        FUSE_READ_IN_V7P1_SIZE as int
    }
}

/// What a `FUSE_READDIRPLUS` request holds.
pub open spec fn spec_parse_readdirplus(h: FuseInHeader, bytes: Seq<u8>, version_minor: u32) -> Result<
    ReaddirplusFields,
    RequestError,
> {
    if h.opcode != FUSE_READDIRPLUS {
        Err(RequestError::OpcodeMismatch)
    } else if h.nodeid == 0 {
        Err(RequestError::MissingNodeId)
    } else {
        match spec_take(bytes, FUSE_IN_HEADER_SIZE as int, spec_read_body_size(version_minor)) {
            None => Err(RequestError::UnexpectedEof),
            Some((body, _)) => {
                let raw = FuseReadIn::spec_parse(body);
                Ok(
                    ReaddirplusFields {
                        node_id: h.nodeid,
                        size: raw.size,
                        offset: raw.offset,
                        handle: raw.fh,
                        open_flags: if version_minor >= 9 { raw.flags } else { 0 },
                    },
                )
            },
        }
    }
}

/// Request type for `FUSE_READDIRPLUS`.
#[derive(Clone, Copy, Debug)]
pub struct ReaddirplusRequest {
    node_id: NodeId,
    size: u32,
    offset: u64,
    handle: u64,
    open_flags: u32,
}

impl ReaddirplusRequest {
    /// The decoded fields of this request.
    pub closed spec fn spec_fields(self) -> ReaddirplusFields {
        ReaddirplusFields {
            node_id: self.node_id@,
            size: self.size,
            offset: self.offset,
            handle: self.handle,
            open_flags: self.open_flags,
        }
    }

    /// Decodes a `FUSE_READDIRPLUS` request.
    pub fn from_fuse_request(request: &FuseRequest) -> (r: Result<ReaddirplusRequest, RequestError>)
        ensures
            match spec_parse_readdirplus(
                request.inner.spec_header(),
                request.inner.spec_bytes(),
                request.layout.spec_version_minor(),
            ) {
                Ok(v) => r matches Ok(req) && req.spec_fields() == v,
                Err(e) => r matches Err(e2) && e2 == e,
            },
    {
        let version_minor = request.layout.version_minor();
        let mut dec = request.decoder();
        dec.expect_opcode(FUSE_READDIRPLUS)?;
        let node_id = node_id(dec.header().nodeid)?;
        if version_minor >= 9 {
            let b = dec.next_bytes(FUSE_READ_IN_SIZE as u32)?;
            let raw = FuseReadIn::parse(b);
            Ok(
                ReaddirplusRequest {
                    node_id,
                    size: raw.size,
                    offset: raw.offset,
                    handle: raw.fh,
                    open_flags: raw.flags,
                },
            )
        } else {
            let b = dec.next_bytes(FUSE_READ_IN_V7P1_SIZE as u32)?;
            Ok(
                ReaddirplusRequest {
                    node_id,
                    size: read_u32(b, 16),
                    offset: read_u64(b, 8),
                    handle: read_u64(b, 0),
                    open_flags: 0,
                },
            )
        }
    }

    /// The directory being listed.
    pub fn node_id(&self) -> (r: NodeId)
        ensures
            r@ == self.spec_fields().node_id,
    {
        self.node_id
    }

    /// The largest number of bytes the reply may hold.
    pub fn size(&self) -> (r: u32)
        ensures
            r == self.spec_fields().size,
    {
        self.size
    }

    /// Where to resume listing: the offset of the last entry received, or
    /// `None` to start at the beginning.
    pub fn offset(&self) -> (r: Option<u64>)
        ensures
            r == (if self.spec_fields().offset == 0 { None } else { Some(self.spec_fields().offset) }),
    {
        if self.offset == 0 { None } else { Some(self.offset) }
    }

    /// The handle chosen when the directory was opened, or zero if none was.
    pub fn handle(&self) -> (r: u64)
        ensures
            r == self.spec_fields().handle,
    {
        self.handle
    }

    /// The flags the directory was opened with; zero before protocol 7.9.
    pub fn open_flags(&self) -> (r: u32)
        ensures
            r == self.spec_fields().open_flags,
    {
        self.open_flags
    }
}

// }}}

// ReaddirplusEntry {{{

/// One entry of a readdirplus reply: a name, the offset to resume after it,
/// and the node it names.
#[derive(Clone, Copy, Debug)]
pub struct ReaddirplusEntry<'a> {
    name: NodeName<'a>,
    offset: u64,
    entry: Node,
}

/// The size of an entry whose name is `name_len` bytes long: the fixed part,
/// the name, and zeros up to a multiple of eight.
pub open spec fn spec_entry_size(name_len: int) -> int {
    let unpadded = FUSE_DIRENTPLUS_SIZE + name_len;
    if unpadded % 8 == 0 {
        unpadded
    } else {
        unpadded + (8 - unpadded % 8)
    }
}

/// The directory-entry type of a mode: its `S_IFMT` bits, shifted down.
pub open spec fn spec_dirent_type(mode: u32) -> u32 {
    (mode & S_IFMT) >> 12u32
}

/// The wire encoding of an entry (`fuse_direntplus` then the name, padded).
pub open spec fn spec_encode_direntplus(name: Seq<u8>, offset: u64, entry: Node) -> Seq<u8> {
    entry.spec_encode() + enc64(entry.attr.ino) + enc64(offset) + enc32(name.len() as u32) + enc32(
        spec_dirent_type(entry.attr.mode),
    ) + name + Seq::new(
        (spec_entry_size(name.len() as int) - FUSE_DIRENTPLUS_SIZE - name.len()) as nat,
        |_i: int| 0u8,
    )
}

impl<'a> ReaddirplusEntry<'a> {
    #[verifier::type_invariant]
    spec fn inv(self) -> bool {
        self.offset != 0
    }

    /// The name, offset and node of this entry.
    pub closed spec fn spec_fields(self) -> (Seq<u8>, u64, Node) {
        (self.name.view_bytes(), self.offset, self.entry)
    }

    /// The wire encoding of this entry.
    pub open spec fn spec_encode(self) -> Seq<u8> {
        spec_encode_direntplus(self.spec_fields().0, self.spec_fields().1, self.spec_fields().2)
    }

    /// An entry named `name` for the node `entry`; listing resumes after it
    /// at `offset`, which is not zero.
    pub fn new(name: NodeName<'a>, offset: u64, entry: Node) -> (r: ReaddirplusEntry<'a>)
        requires
            offset != 0,
        ensures
            r.spec_fields() == (name.view_bytes(), offset, entry),
    {
        ReaddirplusEntry { name, offset, entry }
    }

    /// The name of the entry.
    pub fn name(&self) -> (r: NodeName<'a>)
        ensures
            r.view_bytes() == self.spec_fields().0,
    {
        self.name
    }

    /// The offset to resume listing after this entry; never zero.
    pub fn offset(&self) -> (r: u64)
        ensures
            r == self.spec_fields().1,
            r != 0,
    {
        proof {
            use_type_invariant(self);
        }
        self.offset
    }

    /// The node this entry names.
    pub fn entry(&self) -> (r: &Node)
        ensures
            *r == self.spec_fields().2,
    {
        &self.entry
    }
}

// }}}

// ReaddirplusEntries {{{

/// The entries written by a [`ReaddirplusEntriesWriter`], as sent in the
/// reply.
#[derive(Clone, Debug)]
pub struct ReaddirplusEntries {
    buf: Vec<u8>,
}

impl ReaddirplusEntries {
    /// The encoded entries.
    pub closed spec fn spec_bytes(self) -> Seq<u8> {
        self.buf@
    }

    /// The encoded entries.
    pub fn as_bytes(&self) -> (r: &[u8])
        ensures
            r@ == self.spec_bytes(),
    {
        self.buf.as_slice()
    }
}

// }}}

// ReaddirplusEntriesWriter {{{

/// The writer has no room for an entry.
#[derive(Clone, Copy, Debug, PartialEq, Eq, Structural)]
pub struct ReaddirplusCapacityError {}

/// The largest reply size the kernel accepts for a directory listing.
pub const MAX_ENTRIES_CAPACITY: usize = 65535;

/// Encodes entries one after another, up to a fixed capacity.
pub struct ReaddirplusEntriesWriter {
    buf: Vec<u8>,
    capacity: usize,
}

/// The capacity a writer asked for `requested` bytes gets: at most
/// [`MAX_ENTRIES_CAPACITY`].
pub open spec fn spec_writer_capacity(requested: usize) -> usize {
    if requested > MAX_ENTRIES_CAPACITY {
        MAX_ENTRIES_CAPACITY
    } else {
        requested
    }
}

impl ReaddirplusEntriesWriter {
    #[verifier::type_invariant]
    spec fn inv(self) -> bool {
        &&& self.capacity <= MAX_ENTRIES_CAPACITY
        &&& self.buf@.len() <= self.capacity
    }

    /// How many bytes the writer may hold.
    pub closed spec fn spec_capacity(self) -> usize {
        self.capacity
    }

    /// The entries written so far, encoded.
    pub closed spec fn spec_written(self) -> Seq<u8> {
        self.buf@
    }

    /// A writer for up to `capacity` bytes, capped at
    /// [`MAX_ENTRIES_CAPACITY`].
    pub fn new(capacity: usize) -> (r: ReaddirplusEntriesWriter)
        ensures
            r.spec_capacity() == spec_writer_capacity(capacity),
            r.spec_written() == Seq::<u8>::empty(),
    {
        let capacity = if capacity > MAX_ENTRIES_CAPACITY { MAX_ENTRIES_CAPACITY } else { capacity };
        ReaddirplusEntriesWriter { buf: Vec::new(), capacity }
    }

    /// How many bytes the writer may hold.
    pub fn capacity(&self) -> (r: usize)
        ensures
            r == self.spec_capacity(),
            r <= MAX_ENTRIES_CAPACITY,
    {
        proof {
            use_type_invariant(self);
        }
        self.capacity
    }

    /// How many bytes have been written.
    pub fn position(&self) -> (r: usize)
        ensures
            r == self.spec_written().len(),
            r <= self.spec_capacity(),
    {
        proof {
            use_type_invariant(self);
        }
        self.buf.len()
    }

    /// The entries written.
    pub fn into_entries(self) -> (r: ReaddirplusEntries)
        ensures
            r.spec_bytes() == self.spec_written(),
    {
        ReaddirplusEntries { buf: self.buf }
    }

    /// How many bytes `entry` takes in the reply.
    pub fn entry_size(entry: &ReaddirplusEntry) -> (r: usize)
        ensures
            r == spec_entry_size(entry.spec_fields().0.len() as int),
    {
        let name_len = entry.name.len();
        let unpadded = FUSE_DIRENTPLUS_SIZE + name_len;
        if unpadded % 8 == 0 {
            unpadded
        } else {
            unpadded + (8 - unpadded % 8)
        }
    }

    /// Appends `entry`, if there is room for it; else leaves the writer as
    /// it was.
    pub fn try_push(&mut self, entry: &ReaddirplusEntry) -> (r: Result<(), ReaddirplusCapacityError>)
        ensures
            final(self).spec_capacity() == old(self).spec_capacity(),
            ({
                let size = spec_entry_size(entry.spec_fields().0.len() as int);
                let room = old(self).spec_capacity() - old(self).spec_written().len();
                &&& r is Ok <==> size <= room
                &&& r is Ok ==> final(self).spec_written() == old(self).spec_written()
                    + entry.spec_encode()
                &&& r is Err ==> final(self).spec_written() == old(self).spec_written()
            }),
    {
        proof {
            use_type_invariant(&*self);
        }
        let remaining = self.capacity - self.buf.len();
        let size = ReaddirplusEntriesWriter::entry_size(entry);
        if size > remaining {
            return Err(ReaddirplusCapacityError {});
        }
        let name = entry.name.as_bytes();
        let name_len = name.len();
        let mut out: Vec<u8> = Vec::new();
        entry.entry.encode_entry(&mut out, FUSE_KERNEL_MINOR_VERSION);
        push_u64(&mut out, entry.entry.attr.ino);
        push_u64(&mut out, entry.offset);
        push_u32(&mut out, name_len as u32);
        push_u32(&mut out, (entry.entry.attr.mode & S_IFMT) >> 12u32);
        push_bytes(&mut out, name);
        push_zeros(&mut out, size - FUSE_DIRENTPLUS_SIZE - name_len);
        proof {
            lemma_entry_encoding_len(entry.entry);
            lemma_u64_roundtrip(entry.entry.attr.ino);
            lemma_u64_roundtrip(entry.offset);
            lemma_u32_roundtrip(name_len as u32);
            lemma_u32_roundtrip((entry.entry.attr.mode & S_IFMT) >> 12u32);
            assert(out@ =~= entry.spec_encode());
        }
        let mut buf: Vec<u8> = Vec::new();
        std::mem::swap(&mut buf, &mut self.buf);
        let ghost before = buf@;
        buf.append(&mut out);
        proof {
            assert(buf@ =~= before + entry.spec_encode());
        }
        self.buf = buf;
        Ok(())
    }
}

// }}}


impl ReaddirplusRequest {
    /// The `{:#?}` rendering of this value.
    pub fn debug_string(&self) -> (r: String)
        ensures
            r@ == to_chars(spec_debug_struct(ascii_of("ReaddirplusRequest"@), seq![(ascii_of("node_id"@), spec_dec(self.spec_fields().node_id as nat)), (ascii_of("size"@), spec_dec(self.spec_fields().size as nat)), (ascii_of("offset"@), crate::debug::spec_opt_dec_text(if self.spec_fields().offset == 0 { None } else { Some(self.spec_fields().offset) })), (ascii_of("handle"@), spec_dec(self.spec_fields().handle as nat)), (ascii_of("open_flags"@), crate::debug::spec_hex_text(self.spec_fields().open_flags as nat, 8))])),
    {
        proof {
            reveal_strlit("ReaddirplusRequest");
            reveal_strlit("node_id");
            reveal_strlit("size");
            reveal_strlit("offset");
            reveal_strlit("handle");
            reveal_strlit("open_flags");
        }
        let d = DebugStruct::new("ReaddirplusRequest");
        let d = d.field("node_id", crate::debug::dec_text(self.node_id.get()).as_slice());
        let d = d.field("size", crate::debug::dec_text(self.size as u64).as_slice());
        let d = d.field("offset", crate::debug::opt_dec_text(self.offset()).as_slice());
        let d = d.field("handle", crate::debug::dec_text(self.handle).as_slice());
        let d = d.field("open_flags", crate::debug::hex_text(self.open_flags as u64, 8).as_slice());
        proof {
            assert(d.spec_fields() =~= seq![(ascii_of("node_id"@), spec_dec(self.spec_fields().node_id as nat)), (ascii_of("size"@), spec_dec(self.spec_fields().size as nat)), (ascii_of("offset"@), crate::debug::spec_opt_dec_text(if self.spec_fields().offset == 0 { None } else { Some(self.spec_fields().offset) })), (ascii_of("handle"@), spec_dec(self.spec_fields().handle as nat)), (ascii_of("open_flags"@), crate::debug::spec_hex_text(self.spec_fields().open_flags as nat, 8))]);
        }
        d.finish()
    }
}

// ReaddirplusEntriesIter {{{

/// The entry encoded at `pos` in `bytes`, as its name, offset and node, and
/// the position after it; `None` where no well-formed entry starts there.
/// The type and node ID repeated in the directory-entry part are not read:
/// they follow from the node.
pub open spec fn spec_parse_direntplus(bytes: Seq<u8>, pos: int) -> Option<(Seq<u8>, u64, Node, int)> {
    if pos < 0 || pos + FUSE_DIRENTPLUS_SIZE > bytes.len() {
        None
    } else {
        let node = Node::spec_parse(bytes.subrange(pos, pos + 128));
        let offset = le64(bytes, pos + 136);
        let name_len = le32(bytes, pos + 144);
        let size = spec_entry_size(name_len as int);
        if pos + size > bytes.len() {
            None
        } else {
            let name = bytes.subrange(pos + FUSE_DIRENTPLUS_SIZE, pos + FUSE_DIRENTPLUS_SIZE + name_len);
            if !is_valid_node_name(name) || offset == 0 {
                None
            } else {
                Some((name, offset, node, pos + size))
            }
        }
    }
}

/// Reads back the entries of a readdirplus reply, in order.
pub struct ReaddirplusEntriesIter<'a> {
    buf: &'a [u8],
    pos: usize,
}

impl<'a> ReaddirplusEntriesIter<'a> {
    /// The bytes being read.
    pub closed spec fn spec_bytes(self) -> Seq<u8> {
        self.buf@
    }

    /// The position of the next entry.
    pub closed spec fn spec_pos(self) -> int {
        self.pos as int
    }

    /// A reader positioned at the first of `entries`.
    pub fn new(entries: &'a ReaddirplusEntries) -> (r: ReaddirplusEntriesIter<'a>)
        ensures
            r.spec_bytes() == entries.spec_bytes(),
            r.spec_pos() == 0,
    {
        ReaddirplusEntriesIter { buf: entries.buf.as_slice(), pos: 0 }
    }

    /// Reads the next entry; `None` at the end, or where the bytes hold no
    /// well-formed entry, which leaves the reader where it was.
    pub fn next(&mut self) -> (r: Option<ReaddirplusEntry<'a>>)
        ensures
            final(self).spec_bytes() == old(self).spec_bytes(),
            match spec_parse_direntplus(old(self).spec_bytes(), old(self).spec_pos()) {
                None => r is None && final(self).spec_pos() == old(self).spec_pos(),
                Some((name, offset, node, next)) => {
                    &&& r matches Some(e) && e.spec_fields() == (name, offset, node)
                    &&& final(self).spec_pos() == next
                },
            },
    {
        let len = self.buf.len();
        if self.pos > len || len - self.pos < FUSE_DIRENTPLUS_SIZE {
            return None;
        }
        let pos = self.pos;
        let head = &self.buf[pos..pos + 128];
        let node = Node::parse(head);
        let offset = read_u64(self.buf, pos + 136);
        let name_len = read_u32(self.buf, pos + 144);
        let unpadded: u64 = FUSE_DIRENTPLUS_SIZE as u64 + name_len as u64;
        let size: u64 = if unpadded % 8 == 0 { unpadded } else { unpadded + (8 - unpadded % 8) };
        if size > (len - pos) as u64 {
            return None;
        }
        let name_bytes = &self.buf[pos + FUSE_DIRENTPLUS_SIZE..pos + FUSE_DIRENTPLUS_SIZE + name_len as usize];
        let name = match NodeName::from_bytes(name_bytes) {
            Ok(n) => n,
            Err(_) => {
                proof {
                    lemma_check_node_name_ok(name_bytes@);
                }
                return None;
            },
        };
        if offset == 0 {
            return None;
        }
        proof {
            lemma_check_node_name_ok(name_bytes@);
            assert(head@ =~= self.buf@.subrange(pos as int, pos + 128));
        }
        self.pos = pos + size as usize;
        Some(ReaddirplusEntry::new(name, offset, node))
    }
}

/// An entry written into a reply reads back as the same name, offset and
/// node, and the reader moves past exactly the bytes the entry took.
pub proof fn law_readdirplus_roundtrip(prefix: Seq<u8>, name: Seq<u8>, offset: u64, node: Node, rest: Seq<u8>)
    requires
        is_valid_node_name(name),
        offset != 0,
    ensures
        spec_parse_direntplus(prefix + spec_encode_direntplus(name, offset, node) + rest, prefix.len() as int)
            == Some((name, offset, node, prefix.len() + spec_entry_size(name.len() as int))),
{
    let e = spec_encode_direntplus(name, offset, node);
    let s = prefix + e + rest;
    let p = prefix.len() as int;
    lemma_entry_encoding_len(node);
    lemma_u64_roundtrip(node.attr.ino);
    lemma_u64_roundtrip(offset);
    lemma_u32_roundtrip(name.len() as u32);
    lemma_u32_roundtrip(spec_dirent_type(node.attr.mode));
    assert(s.subrange(p, p + 128) =~= node.spec_encode());
    lemma_node_roundtrip(node, Seq::empty());
    assert(node.spec_encode() + Seq::<u8>::empty() =~= node.spec_encode());
    assert(s.subrange(p + 136, p + 144) =~= enc64(offset));
    assert(s.subrange(p + 144, p + 148) =~= enc32(name.len() as u32));
    assert(s.subrange(p + 152, p + 152 + name.len()) =~= name);
}

// }}}

} // verus!
