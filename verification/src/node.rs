//! Node identifiers and the node entry sent in replies.

use vstd::prelude::*;

use crate::kernel::{FUSE_COMPAT_ENTRY_OUT_SIZE, FUSE_ENTRY_OUT_SIZE, FUSE_ROOT_ID};
use crate::wire::{enc32, enc64, le32, le64, lemma_u32_roundtrip, lemma_u64_roundtrip, push_u32, push_u64, read_u32, read_u64};

verus! {

// NodeId {{{

/// The identifier of a filesystem node; never zero.
#[derive(Clone, Copy, Debug, PartialEq, Eq, Structural, Hash, PartialOrd, Ord)]
pub struct NodeId {
    id: u64,
}

impl View for NodeId {
    type V = u64;

    closed spec fn view(&self) -> u64 {
        self.id
    }
}

impl NodeId {
    #[verifier::type_invariant]
    spec fn nonzero(self) -> bool {
        self.id != 0
    }

    /// The node ID `id`, if it is not zero.
    pub fn new(id: u64) -> (r: Option<NodeId>)
        ensures
            r is Some <==> id != 0,
            r matches Some(n) ==> n@ == id,
    {
        if id == 0 {
            None
        } else {
            Some(NodeId { id })
        }
    }

    /// The node ID of the filesystem root.
    pub fn root() -> (r: NodeId)
        ensures
            r@ == FUSE_ROOT_ID,
    {
        NodeId { id: FUSE_ROOT_ID }
    }

    /// This node ID as a primitive integer; never zero.
    pub fn get(&self) -> (r: u64)
        ensures
            r == self@,
            r != 0,
    {
        proof {
            use_type_invariant(self);
        }
        self.id
    }

    /// Returns whether this is the filesystem root.
    pub fn is_root(&self) -> (r: bool)
        ensures
            r == (self@ == FUSE_ROOT_ID),
    {
        self.id == FUSE_ROOT_ID
    }
}

// }}}

// CacheTimeout {{{

/// How long the client may cache a value: whole seconds plus nanoseconds.
#[derive(Clone, Copy, Debug, PartialEq, Eq, Structural)]
pub struct CacheTimeout {
    pub seconds: u64,
    pub nanos: u32,
}

// }}}

// FuseAttr {{{

/// The attributes of a node, as sent in replies (`fuse_attr`).
#[derive(Clone, Copy, Debug, PartialEq, Eq, Structural)]
pub struct FuseAttr {
    pub ino: u64,
    pub size: u64,
    pub blocks: u64,
    pub atime: u64,
    pub mtime: u64,
    pub ctime: u64,
    pub atimensec: u32,
    pub mtimensec: u32,
    pub ctimensec: u32,
    pub mode: u32,
    pub nlink: u32,
    pub uid: u32,
    pub gid: u32,
    pub rdev: u32,
    pub blksize: u32,
    pub flags: u32,
}

impl FuseAttr {
    /// Attributes with every field zero.
    pub fn zeroed() -> (r: FuseAttr)
        ensures
            r == FuseAttr::spec_zeroed(),
    {
        FuseAttr {
            ino: 0,
            size: 0,
            blocks: 0,
            atime: 0,
            mtime: 0,
            ctime: 0,
            atimensec: 0,
            mtimensec: 0,
            ctimensec: 0,
            mode: 0,
            nlink: 0,
            uid: 0,
            gid: 0,
            rdev: 0,
            blksize: 0,
            flags: 0,
        }
    }

    /// Attributes with every field zero.
    pub open spec fn spec_zeroed() -> FuseAttr {
        FuseAttr {
            ino: 0,
            size: 0,
            blocks: 0,
            atime: 0,
            mtime: 0,
            ctime: 0,
            atimensec: 0,
            mtimensec: 0,
            ctimensec: 0,
            mode: 0,
            nlink: 0,
            uid: 0,
            gid: 0,
            rdev: 0,
            blksize: 0,
            flags: 0,
        }
    }

    /// The wire encoding of these attributes.
    pub open spec fn spec_encode(self) -> Seq<u8> {
        enc64(self.ino) + enc64(self.size) + enc64(self.blocks) + enc64(self.atime) + enc64(
            self.mtime,
        ) + enc64(self.ctime) + enc32(self.atimensec) + enc32(self.mtimensec) + enc32(
            self.ctimensec,
        ) + enc32(self.mode) + enc32(self.nlink) + enc32(self.uid) + enc32(self.gid) + enc32(
            self.rdev,
        ) + enc32(self.blksize) + enc32(self.flags)
    }

    /// Appends the wire encoding of these attributes to `out`.
    pub fn encode(&self, out: &mut Vec<u8>)
        ensures
            final(out)@ == old(out)@ + self.spec_encode(),
    {
        push_u64(out, self.ino);
        push_u64(out, self.size);
        push_u64(out, self.blocks);
        push_u64(out, self.atime);
        push_u64(out, self.mtime);
        push_u64(out, self.ctime);
        push_u32(out, self.atimensec);
        push_u32(out, self.mtimensec);
        push_u32(out, self.ctimensec);
        push_u32(out, self.mode);
        push_u32(out, self.nlink);
        push_u32(out, self.uid);
        push_u32(out, self.gid);
        push_u32(out, self.rdev);
        push_u32(out, self.blksize);
        push_u32(out, self.flags);
        proof {
            assert(final(out)@ =~= old(out)@ + self.spec_encode());
        }
    }
}

// }}}

// Node {{{

/// A node entry sent in replies that create or look up a node
/// (`fuse_entry_out`).
#[derive(Clone, Copy, Debug, PartialEq, Eq, Structural)]
pub struct Node {
    pub nodeid: u64,
    pub generation: u64,
    pub entry_valid: u64,
    pub attr_valid: u64,
    pub entry_valid_nsec: u32,
    pub attr_valid_nsec: u32,
    pub attr: FuseAttr,
}

impl Node {
    /// A node entry with every field zero.
    pub fn new() -> (r: Node)
        ensures
            r == Node::spec_zeroed(),
    {
        Node {
            nodeid: 0,
            generation: 0,
            entry_valid: 0,
            attr_valid: 0,
            entry_valid_nsec: 0,
            attr_valid_nsec: 0,
            attr: FuseAttr::zeroed(),
        }
    }

    /// A node entry with every field zero.
    pub open spec fn spec_zeroed() -> Node {
        Node {
            nodeid: 0,
            generation: 0,
            entry_valid: 0,
            attr_valid: 0,
            entry_valid_nsec: 0,
            attr_valid_nsec: 0,
            attr: FuseAttr::spec_zeroed(),
        }
    }

    /// The node ID, if one has been set.
    pub fn id(&self) -> (r: Option<NodeId>)
        ensures
            r is Some <==> self.nodeid != 0,
            r matches Some(n) ==> n@ == self.nodeid,
    {
        NodeId::new(self.nodeid)
    }

    /// Sets the node ID.
    pub fn set_id(&mut self, id: NodeId)
        ensures
            *final(self) == (Node { nodeid: id@, ..*old(self) }),
    {
        self.nodeid = id.get();
    }

    /// The node's generation number.
    pub fn generation(&self) -> (r: u64)
        ensures
            r == self.generation,
    {
        self.generation
    }

    /// Sets the node's generation number.
    pub fn set_generation(&mut self, generation: u64)
        ensures
            *final(self) == (Node { generation, ..*old(self) }),
    {
        self.generation = generation;
    }

    /// How long the client may cache this entry.
    pub fn cache_timeout(&self) -> (r: CacheTimeout)
        ensures
            r == (CacheTimeout { seconds: self.entry_valid, nanos: self.entry_valid_nsec }),
    {
        CacheTimeout { seconds: self.entry_valid, nanos: self.entry_valid_nsec }
    }

    /// Sets how long the client may cache this entry.
    pub fn set_cache_timeout(&mut self, d: CacheTimeout)
        ensures
            *final(self) == (Node {
                entry_valid: d.seconds,
                entry_valid_nsec: d.nanos,
                ..*old(self)
            }),
    {
        self.entry_valid = d.seconds;
        self.entry_valid_nsec = d.nanos;
    }

    /// How long the client may cache this entry's attributes.
    pub fn attr_cache_timeout(&self) -> (r: CacheTimeout)
        ensures
            r == (CacheTimeout { seconds: self.attr_valid, nanos: self.attr_valid_nsec }),
    {
        CacheTimeout { seconds: self.attr_valid, nanos: self.attr_valid_nsec }
    }

    /// Sets how long the client may cache this entry's attributes.
    pub fn set_attr_cache_timeout(&mut self, d: CacheTimeout)
        ensures
            *final(self) == (Node {
                attr_valid: d.seconds,
                attr_valid_nsec: d.nanos,
                ..*old(self)
            }),
    {
        self.attr_valid = d.seconds;
        self.attr_valid_nsec = d.nanos;
    }

    /// The node's attributes.
    pub fn attr(&self) -> (r: &FuseAttr)
        ensures
            *r == self.attr,
    {
        &self.attr
    }

    /// The node's attributes, for modification.
    pub fn attr_mut(&mut self) -> (r: &mut FuseAttr)
        ensures
            *r == old(self).attr,
            *final(self) == (Node { attr: *final(r), ..*old(self) }),
    {
        &mut self.attr
    }

    /// The wire encoding of this entry.
    pub open spec fn spec_encode(self) -> Seq<u8> {
        enc64(self.nodeid) + enc64(self.generation) + enc64(self.entry_valid) + enc64(
            self.attr_valid,
        ) + enc32(self.entry_valid_nsec) + enc32(self.attr_valid_nsec) + self.attr.spec_encode()
    }

    /// The encoding of this entry for protocol minor version `version_minor`:
    /// before 7.9 the attributes end without their last two fields.
    pub open spec fn spec_encode_entry(self, version_minor: u32) -> Seq<u8> {
        if version_minor < 9 {
            self.spec_encode().subrange(0, FUSE_COMPAT_ENTRY_OUT_SIZE as int)
        } else {
            self.spec_encode()
        }
    }

    /// Appends the encoding of this entry for `version_minor` to `out`.
    pub fn encode_entry(&self, out: &mut Vec<u8>, version_minor: u32)
        ensures
            final(out)@ == old(out)@ + self.spec_encode_entry(version_minor),
    {
        proof {
            crate::wire::lemma_u64_roundtrip(0);
            crate::wire::lemma_u32_roundtrip(0);
        }
        let mut body: Vec<u8> = Vec::new();
        push_u64(&mut body, self.nodeid);
        push_u64(&mut body, self.generation);
        push_u64(&mut body, self.entry_valid);
        push_u64(&mut body, self.attr_valid);
        push_u32(&mut body, self.entry_valid_nsec);
        push_u32(&mut body, self.attr_valid_nsec);
        self.attr.encode(&mut body);
        proof {
            assert(body@ =~= self.spec_encode());
            lemma_entry_encoding_len(*self);
        }
        if version_minor < 9 {
            body.truncate(FUSE_COMPAT_ENTRY_OUT_SIZE);
        }
        out.append(&mut body);
    }
}

/// The full encoding of an entry is [`FUSE_ENTRY_OUT_SIZE`] bytes long.
pub proof fn lemma_entry_encoding_len(n: Node)
    ensures
        n.spec_encode().len() == FUSE_ENTRY_OUT_SIZE,
{
    crate::wire::lemma_u64_roundtrip(n.nodeid);
    crate::wire::lemma_u64_roundtrip(n.generation);
    crate::wire::lemma_u64_roundtrip(n.entry_valid);
    crate::wire::lemma_u64_roundtrip(n.attr_valid);
    crate::wire::lemma_u32_roundtrip(n.entry_valid_nsec);
    crate::wire::lemma_u32_roundtrip(n.attr_valid_nsec);
    let a = n.attr;
    crate::wire::lemma_u64_roundtrip(a.ino);
    crate::wire::lemma_u64_roundtrip(a.size);
    crate::wire::lemma_u64_roundtrip(a.blocks);
    crate::wire::lemma_u64_roundtrip(a.atime);
    crate::wire::lemma_u64_roundtrip(a.mtime);
    crate::wire::lemma_u64_roundtrip(a.ctime);
    crate::wire::lemma_u32_roundtrip(a.atimensec);
    crate::wire::lemma_u32_roundtrip(a.mtimensec);
    crate::wire::lemma_u32_roundtrip(a.ctimensec);
    crate::wire::lemma_u32_roundtrip(a.mode);
    crate::wire::lemma_u32_roundtrip(a.nlink);
    crate::wire::lemma_u32_roundtrip(a.uid);
    crate::wire::lemma_u32_roundtrip(a.gid);
    crate::wire::lemma_u32_roundtrip(a.rdev);
    crate::wire::lemma_u32_roundtrip(a.blksize);
    crate::wire::lemma_u32_roundtrip(a.flags);
}

// }}}


impl Node {
    /// The entry stored at the start of `s`.
    pub open spec fn spec_parse(s: Seq<u8>) -> Node {
        Node {
            nodeid: le64(s, 0),
            generation: le64(s, 8),
            entry_valid: le64(s, 16),
            attr_valid: le64(s, 24),
            entry_valid_nsec: le32(s, 32),
            attr_valid_nsec: le32(s, 36),
            attr: FuseAttr {
                ino: le64(s, 40),
                size: le64(s, 48),
                blocks: le64(s, 56),
                atime: le64(s, 64),
                mtime: le64(s, 72),
                ctime: le64(s, 80),
                atimensec: le32(s, 88),
                mtimensec: le32(s, 92),
                ctimensec: le32(s, 96),
                mode: le32(s, 100),
                nlink: le32(s, 104),
                uid: le32(s, 108),
                gid: le32(s, 112),
                rdev: le32(s, 116),
                blksize: le32(s, 120),
                flags: le32(s, 124),
            },
        }
    }

    /// Reads the entry stored at the start of `s`.
    pub fn parse(s: &[u8]) -> (r: Node)
        requires
            s@.len() >= FUSE_ENTRY_OUT_SIZE,
        ensures
            r == Node::spec_parse(s@),
    {
        Node {
            nodeid: read_u64(s, 0),
            generation: read_u64(s, 8),
            entry_valid: read_u64(s, 16),
            attr_valid: read_u64(s, 24),
            entry_valid_nsec: read_u32(s, 32),
            attr_valid_nsec: read_u32(s, 36),
            attr: FuseAttr {
                ino: read_u64(s, 40),
                size: read_u64(s, 48),
                blocks: read_u64(s, 56),
                atime: read_u64(s, 64),
                mtime: read_u64(s, 72),
                ctime: read_u64(s, 80),
                atimensec: read_u32(s, 88),
                mtimensec: read_u32(s, 92),
                ctimensec: read_u32(s, 96),
                mode: read_u32(s, 100),
                nlink: read_u32(s, 104),
                uid: read_u32(s, 108),
                gid: read_u32(s, 112),
                rdev: read_u32(s, 116),
                blksize: read_u32(s, 120),
                flags: read_u32(s, 124),
            },
        }
    }
}

/// Reading an encoded entry gives it back, whatever follows it.
#[verifier::rlimit(40)]
pub proof fn lemma_node_roundtrip(n: Node, rest: Seq<u8>)
    ensures
        Node::spec_parse(n.spec_encode() + rest) == n,
{
    lemma_entry_encoding_len(n);
    let s = n.spec_encode() + rest;
    lemma_u64_roundtrip(n.nodeid);
    lemma_u64_roundtrip(n.generation);
    lemma_u64_roundtrip(n.entry_valid);
    lemma_u64_roundtrip(n.attr_valid);
    lemma_u32_roundtrip(n.entry_valid_nsec);
    lemma_u32_roundtrip(n.attr_valid_nsec);
    lemma_u64_roundtrip(n.attr.ino);
    lemma_u64_roundtrip(n.attr.size);
    lemma_u64_roundtrip(n.attr.blocks);
    lemma_u64_roundtrip(n.attr.atime);
    lemma_u64_roundtrip(n.attr.mtime);
    lemma_u64_roundtrip(n.attr.ctime);
    lemma_u32_roundtrip(n.attr.atimensec);
    lemma_u32_roundtrip(n.attr.mtimensec);
    lemma_u32_roundtrip(n.attr.ctimensec);
    lemma_u32_roundtrip(n.attr.mode);
    lemma_u32_roundtrip(n.attr.nlink);
    lemma_u32_roundtrip(n.attr.uid);
    lemma_u32_roundtrip(n.attr.gid);
    lemma_u32_roundtrip(n.attr.rdev);
    lemma_u32_roundtrip(n.attr.blksize);
    lemma_u32_roundtrip(n.attr.flags);
    assert(s.subrange(0, 8) =~= enc64(n.nodeid));
    assert(s.subrange(8, 16) =~= enc64(n.generation));
    assert(s.subrange(16, 24) =~= enc64(n.entry_valid));
    assert(s.subrange(24, 32) =~= enc64(n.attr_valid));
    assert(s.subrange(32, 36) =~= enc32(n.entry_valid_nsec));
    assert(s.subrange(36, 40) =~= enc32(n.attr_valid_nsec));
    assert(s.subrange(40, 48) =~= enc64(n.attr.ino));
    assert(s.subrange(48, 56) =~= enc64(n.attr.size));
    assert(s.subrange(56, 64) =~= enc64(n.attr.blocks));
    assert(s.subrange(64, 72) =~= enc64(n.attr.atime));
    assert(s.subrange(72, 80) =~= enc64(n.attr.mtime));
    assert(s.subrange(80, 88) =~= enc64(n.attr.ctime));
    assert(s.subrange(88, 92) =~= enc32(n.attr.atimensec));
    assert(s.subrange(92, 96) =~= enc32(n.attr.mtimensec));
    assert(s.subrange(96, 100) =~= enc32(n.attr.ctimensec));
    assert(s.subrange(100, 104) =~= enc32(n.attr.mode));
    assert(s.subrange(104, 108) =~= enc32(n.attr.nlink));
    assert(s.subrange(108, 112) =~= enc32(n.attr.uid));
    assert(s.subrange(112, 116) =~= enc32(n.attr.gid));
    assert(s.subrange(116, 120) =~= enc32(n.attr.rdev));
    assert(s.subrange(120, 124) =~= enc32(n.attr.blksize));
    assert(s.subrange(124, 128) =~= enc32(n.attr.flags));
}

} // verus!
