//! The `FUSE_SYMLINK` operation: create a symbolic link.

use vstd::prelude::*;

use crate::decode::{node_id, spec_require_node_id, spec_take_cstr, spec_take_node_name};
use crate::error::RequestError;
use crate::kernel::{FuseInHeader, FUSE_IN_HEADER_SIZE, FUSE_SYMLINK};
use crate::node::NodeId;
use crate::node_name::NodeName;
use crate::server::FuseRequest;

use crate::debug::{ascii_of, spec_debug_struct, to_chars, DebugStruct};
use crate::ascii::spec_dec;

verus! {

/// What a `FUSE_SYMLINK` request holds: the parent directory, the name of
/// the new link, and its content. The body holds the content first, then the
/// name.
pub open spec fn spec_parse_symlink(h: FuseInHeader, bytes: Seq<u8>) -> Result<
    (u64, Seq<u8>, Seq<u8>),
    RequestError,
> {
    if h.opcode != FUSE_SYMLINK {
        Err(RequestError::OpcodeMismatch)
    } else {
        match spec_take_cstr(bytes, FUSE_IN_HEADER_SIZE as int) {
            None => Err(RequestError::UnexpectedEof),
            Some((content, pos)) => match spec_take_node_name(bytes, pos) {
                Err(e) => Err(e),
                Ok((name, _)) => match spec_require_node_id(h.nodeid) {
                    Err(e) => Err(e),
                    Ok(parent) => Ok((parent, name, content)),
                },
            },
        }
    }
}

/// Request type for `FUSE_SYMLINK`.
#[derive(Clone, Copy, Debug)]
pub struct SymlinkRequest<'a> {
    parent_id: NodeId,
    name: NodeName<'a>,
    content: &'a [u8],
}

impl View for SymlinkRequest<'_> {
    type V = (u64, Seq<u8>, Seq<u8>);

    closed spec fn view(&self) -> (u64, Seq<u8>, Seq<u8>) {
        (self.parent_id@, self.name.view_bytes(), self.content@)
    }
}

impl<'a> SymlinkRequest<'a> {
    /// Decodes a `FUSE_SYMLINK` request.
    pub fn from_fuse_request(request: &FuseRequest<'a>) -> (r: Result<SymlinkRequest<'a>, RequestError>)
        ensures
            match spec_parse_symlink(request.inner.spec_header(), request.inner.spec_bytes()) {
                Ok(v) => r matches Ok(req) && req@ == v,
                Err(e) => r matches Err(e2) && e2 == e,
            },
    {
        let mut dec = request.decoder();
        dec.expect_opcode(FUSE_SYMLINK)?;
        let content = dec.next_cstr()?;
        let name = dec.next_node_name()?;
        let parent_id = node_id(dec.header().nodeid)?;
        Ok(SymlinkRequest { parent_id, name, content })
    }

    /// The directory that will hold the link.
    pub fn parent_id(&self) -> (r: NodeId)
        ensures
            r@ == self@.0,
    {
        self.parent_id
    }

    /// The name of the link.
    pub fn name(&self) -> (r: NodeName<'a>)
        ensures
            r.view_bytes() == self@.1,
    {
        self.name
    }

    /// The content of the link, without its `NUL` terminator.
    pub fn content(&self) -> (r: &'a [u8])
        ensures
            r@ == self@.2,
    {
        self.content
    }
}


impl<'a> SymlinkRequest<'a> {
    /// The `{:#?}` rendering of this value.
    pub fn debug_string(&self) -> (r: String)
        ensures
            r@ == to_chars(spec_debug_struct(ascii_of("SymlinkRequest"@), seq![(ascii_of("parent_id"@), spec_dec(self@.0 as nat)), (ascii_of("name"@), crate::debug::spec_quoted_text(self@.1)), (ascii_of("content"@), crate::debug::spec_quoted_text(self@.2))])),
    {
        proof {
            reveal_strlit("SymlinkRequest");
            reveal_strlit("parent_id");
            reveal_strlit("name");
            reveal_strlit("content");
        }
        let d = DebugStruct::new("SymlinkRequest");
        let d = d.field("parent_id", crate::debug::dec_text(self.parent_id.get()).as_slice());
        let d = d.field("name", crate::debug::quoted_text(self.name.as_bytes()).as_slice());
        let d = d.field("content", crate::debug::quoted_text(self.content).as_slice());
        proof {
            assert(d.spec_fields() =~= seq![(ascii_of("parent_id"@), spec_dec(self@.0 as nat)), (ascii_of("name"@), crate::debug::spec_quoted_text(self@.1)), (ascii_of("content"@), crate::debug::spec_quoted_text(self@.2))]);
        }
        d.finish()
    }
}

} // verus!
