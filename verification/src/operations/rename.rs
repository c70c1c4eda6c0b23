//! The `FUSE_RENAME` and `FUSE_RENAME2` operations: move a node.

use vstd::prelude::*;

use crate::decode::{node_id, spec_require_node_id, spec_take, spec_take_node_name};
use crate::error::RequestError;
use crate::kernel::{
    FuseInHeader,
    FuseRename2In,
    FUSE_IN_HEADER_SIZE,
    FUSE_RENAME,
    FUSE_RENAME2,
    FUSE_RENAME2_IN_SIZE,
    FUSE_RENAME_IN_SIZE,
};
use crate::node::NodeId;
use crate::node_name::NodeName;
use crate::server::FuseRequest;
use crate::wire::{le64, read_u64};

use crate::debug::{ascii_of, spec_debug_struct, to_chars, DebugStruct};
use crate::ascii::spec_dec;

verus! {

/// What a rename request holds, as (old directory, old name, new directory,
/// new name, rename flags). `FUSE_RENAME2` carries flags; `FUSE_RENAME`
/// carries none, which reads as zero.
pub open spec fn spec_parse_rename(h: FuseInHeader, bytes: Seq<u8>) -> Result<
    (u64, Seq<u8>, u64, Seq<u8>, u32),
    RequestError,
> {
    let fixed: Result<(u64, u32, int), RequestError> = if h.opcode == FUSE_RENAME2 {
        match spec_take(bytes, FUSE_IN_HEADER_SIZE as int, FUSE_RENAME2_IN_SIZE as int) {
            None => Err(RequestError::UnexpectedEof),
            Some((b, pos)) => Ok(
                (FuseRename2In::spec_parse(b).newdir, FuseRename2In::spec_parse(b).flags, pos),
            ),
        }
    } else if h.opcode != FUSE_RENAME {
        Err(RequestError::OpcodeMismatch)
    } else {
        match spec_take(bytes, FUSE_IN_HEADER_SIZE as int, FUSE_RENAME_IN_SIZE as int) {
            None => Err(RequestError::UnexpectedEof),
            Some((b, pos)) => Ok((le64(b, 0), 0u32, pos)),
        }
    };
    match fixed {
        Err(e) => Err(e),
        Ok((newdir, flags, pos)) => match spec_take_node_name(bytes, pos) {
            Err(e) => Err(e),
            Ok((old_name, pos2)) => match spec_take_node_name(bytes, pos2) {
                Err(e) => Err(e),
                Ok((new_name, _)) => match spec_require_node_id(h.nodeid) {
                    Err(e) => Err(e),
                    Ok(old_dir) => match spec_require_node_id(newdir) {
                        Err(e) => Err(e),
                        Ok(new_dir) => Ok((old_dir, old_name, new_dir, new_name, flags)),
                    },
                },
            },
        },
    }
}

/// Request type for `FUSE_RENAME` and `FUSE_RENAME2`.
#[derive(Clone, Copy, Debug)]
pub struct RenameRequest<'a> {
    old_directory_id: NodeId,
    old_name: NodeName<'a>,
    new_directory_id: NodeId,
    new_name: NodeName<'a>,
    rename_flags: u32,
}

impl View for RenameRequest<'_> {
    type V = (u64, Seq<u8>, u64, Seq<u8>, u32);

    closed spec fn view(&self) -> (u64, Seq<u8>, u64, Seq<u8>, u32) {
        (
            self.old_directory_id@,
            self.old_name.view_bytes(),
            self.new_directory_id@,
            self.new_name.view_bytes(),
            self.rename_flags,
        )
    }
}

impl<'a> RenameRequest<'a> {
    /// Decodes a `FUSE_RENAME` or `FUSE_RENAME2` request.
    pub fn from_fuse_request(request: &FuseRequest<'a>) -> (r: Result<RenameRequest<'a>, RequestError>)
        ensures
            match spec_parse_rename(request.inner.spec_header(), request.inner.spec_bytes()) {
                Ok(v) => r matches Ok(req) && req@ == v,
                Err(e) => r matches Err(e2) && e2 == e,
            },
    {
        let mut dec = request.decoder();
        let header = dec.header();
        let mut rename_flags: u32 = 0;
        let new_dir: u64;
        if header.opcode == FUSE_RENAME2 {
            let b = dec.next_bytes(FUSE_RENAME2_IN_SIZE as u32)?;
            let parsed = FuseRename2In::parse(b);
            rename_flags = parsed.flags;
            new_dir = parsed.newdir;
        } else {
            dec.expect_opcode(FUSE_RENAME)?;
            let b = dec.next_bytes(FUSE_RENAME_IN_SIZE as u32)?;
            new_dir = read_u64(b, 0);
        }
        let old_name = dec.next_node_name()?;
        let new_name = dec.next_node_name()?;
        let old_directory_id = node_id(header.nodeid)?;
        let new_directory_id = node_id(new_dir)?;
        Ok(RenameRequest { old_directory_id, old_name, new_directory_id, new_name, rename_flags })
    }

    /// The directory holding the node.
    pub fn old_directory_id(&self) -> (r: NodeId)
        ensures
            r@ == self@.0,
    {
        self.old_directory_id
    }

    /// The node's current name.
    pub fn old_name(&self) -> (r: NodeName<'a>)
        ensures
            r.view_bytes() == self@.1,
    {
        self.old_name
    }

    /// The directory the node moves to.
    pub fn new_directory_id(&self) -> (r: NodeId)
        ensures
            r@ == self@.2,
    {
        self.new_directory_id
    }

    /// The node's new name.
    pub fn new_name(&self) -> (r: NodeName<'a>)
        ensures
            r.view_bytes() == self@.3,
    {
        self.new_name
    }

    /// The `RENAME_*` flags; zero for `FUSE_RENAME`.
    pub fn rename_flags(&self) -> (r: u32)
        ensures
            r == self@.4,
    {
        self.rename_flags
    }
}


impl<'a> RenameRequest<'a> {
    /// The `{:#?}` rendering of this value.
    pub fn debug_string(&self) -> (r: String)
        ensures
            r@ == to_chars(spec_debug_struct(ascii_of("RenameRequest"@), seq![(ascii_of("old_directory_id"@), spec_dec(self@.0 as nat)), (ascii_of("old_name"@), crate::debug::spec_quoted_text(self@.1)), (ascii_of("new_directory_id"@), spec_dec(self@.2 as nat)), (ascii_of("new_name"@), crate::debug::spec_quoted_text(self@.3)), (ascii_of("rename_flags"@), crate::debug::spec_hex_text(self@.4 as nat, 8))])),
    {
        proof {
            reveal_strlit("RenameRequest");
            reveal_strlit("old_directory_id");
            reveal_strlit("old_name");
            reveal_strlit("new_directory_id");
            reveal_strlit("new_name");
            reveal_strlit("rename_flags");
        }
        let d = DebugStruct::new("RenameRequest");
        let d = d.field("old_directory_id", crate::debug::dec_text(self.old_directory_id.get()).as_slice());
        let d = d.field("old_name", crate::debug::quoted_text(self.old_name.as_bytes()).as_slice());
        let d = d.field("new_directory_id", crate::debug::dec_text(self.new_directory_id.get()).as_slice());
        let d = d.field("new_name", crate::debug::quoted_text(self.new_name.as_bytes()).as_slice());
        let d = d.field("rename_flags", crate::debug::hex_text(self.rename_flags as u64, 8).as_slice());
        proof {
            assert(d.spec_fields() =~= seq![(ascii_of("old_directory_id"@), spec_dec(self@.0 as nat)), (ascii_of("old_name"@), crate::debug::spec_quoted_text(self@.1)), (ascii_of("new_directory_id"@), spec_dec(self@.2 as nat)), (ascii_of("new_name"@), crate::debug::spec_quoted_text(self@.3)), (ascii_of("rename_flags"@), crate::debug::spec_hex_text(self@.4 as nat, 8))]);
        }
        d.finish()
    }
}

} // verus!
