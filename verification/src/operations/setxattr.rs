//! The `FUSE_SETXATTR` operation: set an extended attribute.

use vstd::prelude::*;

use crate::decode::{node_id, spec_take, spec_take_cstr};
use crate::error::{RequestError, XattrValueError};
use crate::kernel::{
    FuseInHeader,
    FuseSetxattrIn,
    FUSE_IN_HEADER_SIZE,
    FUSE_SETXATTR,
    FUSE_SETXATTR_ACL_KILL_SGID,
    FUSE_SETXATTR_IN_SIZE,
    FUSE_SETXATTR_IN_V7P1_SIZE,
};
use crate::node::NodeId;
use crate::server::{FuseLayout, FuseReply, FuseReplySender, FuseRequest, FuseSocket, SendError};
use crate::wire::read_u32;
use crate::xattr::{spec_check_xattr_name, XattrName, XattrValue, XATTR_SIZE_MAX};

use crate::ascii::{is_ascii_bytes, spec_dec};
use crate::debug::{ascii_of, flags_text, spec_debug_struct, spec_flags_text, to_chars, DebugStruct, FlagNames};

verus! {

// SetxattrRequest {{{

/// What a setxattr request holds once decoded.
pub struct SetxattrFields {
    pub node_id: u64,
    pub name: Seq<u8>,
    /// The `FUSE_SETXATTR_*` flags; zero where the session does not carry
    /// them.
    pub flags: u32,
    /// The `XATTR_CREATE` / `XATTR_REPLACE` flags of `setxattr`.
    pub setxattr_flags: u32,
    pub value: Seq<u8>,
}

/// The size of the fixed part of a setxattr request: 16 bytes where the
/// session carries the extended flags, else 8.
pub open spec fn spec_setxattr_body_size(setxattr_ext: bool) -> int {
    if setxattr_ext {
        FUSE_SETXATTR_IN_SIZE as int
    } else {
        FUSE_SETXATTR_IN_V7P1_SIZE as int
    }
}

/// What a `FUSE_SETXATTR` request holds: a fixed part, a `NUL`-terminated
/// name, and a value whose length the fixed part gives.
pub open spec fn spec_parse_setxattr(h: FuseInHeader, bytes: Seq<u8>, setxattr_ext: bool) -> Result<
    SetxattrFields,
    RequestError,
> {
    if h.opcode != FUSE_SETXATTR {
        Err(RequestError::OpcodeMismatch)
    } else if h.nodeid == 0 {
        Err(RequestError::MissingNodeId)
    } else {
        match spec_take(bytes, FUSE_IN_HEADER_SIZE as int, spec_setxattr_body_size(setxattr_ext)) {
            None => Err(RequestError::UnexpectedEof),
            Some((body, pos)) => {
                let raw = FuseSetxattrIn::spec_parse(body);
                match spec_take_cstr(bytes, pos) {
                    None => Err(RequestError::UnexpectedEof),
                    Some((name, pos2)) => match spec_check_xattr_name(name) {
                        Err(e) => Err(RequestError::XattrNameError(e)),
                        Ok(()) => match spec_take(bytes, pos2, raw.size as int) {
                            None => Err(RequestError::UnexpectedEof),
                            Some((value, _)) => if value.len() > XATTR_SIZE_MAX {
                                Err(RequestError::XattrValueError(XattrValueError::ExceedsMaxLen))
                            } else {
                                Ok(
                                    SetxattrFields {
                                        node_id: h.nodeid,
                                        name: name,
                                        flags: if setxattr_ext {
                                            raw.setxattr_flags
                                        } else {
                                            0
                                        },
                                        setxattr_flags: raw.flags,
                                        value: value,
                                    },
                                )
                            },
                        },
                    },
                }
            },
        }
    }
}

/// Request type for `FUSE_SETXATTR`.
#[derive(Clone, Copy, Debug)]
pub struct SetxattrRequest<'a> {
    node_id: NodeId,
    name: XattrName<'a>,
    flags: SetxattrRequestFlags,
    setxattr_flags: u32,
    value: XattrValue<'a>,
}

impl<'a> SetxattrRequest<'a> {
    /// The decoded fields of this request.
    pub closed spec fn spec_fields(self) -> SetxattrFields {
        SetxattrFields {
            node_id: self.node_id@,
            name: self.name.view_bytes(),
            flags: self.flags.bits,
            setxattr_flags: self.setxattr_flags,
            value: self.value.view_bytes(),
        }
    }

    /// Decodes a `FUSE_SETXATTR` request.
    pub fn from_fuse_request(request: &FuseRequest<'a>) -> (r: Result<SetxattrRequest<'a>, RequestError>)
        ensures
            match spec_parse_setxattr(
                request.inner.spec_header(),
                request.inner.spec_bytes(),
                request.layout.spec_setxattr_ext(),
            ) {
                Ok(v) => r matches Ok(req) && req.spec_fields() == v,
                Err(e) => r matches Err(e2) && e2 == e,
            },
    {
        let mut dec = request.decoder();
        dec.expect_opcode(FUSE_SETXATTR)?;
        let node_id = node_id(dec.header().nodeid)?;
        let size: u32;
        let flags: u32;
        let ext_flags: u32;
        if request.layout.have_setxattr_ext() {
            let b = dec.next_bytes(FUSE_SETXATTR_IN_SIZE as u32)?;
            let raw = FuseSetxattrIn::parse(b);
            size = raw.size;
            flags = raw.flags;
            ext_flags = raw.setxattr_flags;
        } else {
            let b = dec.next_bytes(FUSE_SETXATTR_IN_V7P1_SIZE as u32)?;
            size = read_u32(b, 0);
            flags = read_u32(b, 4);
            ext_flags = 0;
        }
        let name_bytes = dec.next_cstr()?;
        let name = match XattrName::from_bytes(name_bytes) {
            Ok(n) => n,
            Err(e) => return Err(RequestError::XattrNameError(e)),
        };
        let value_bytes = dec.next_bytes(size)?;
        let value = match XattrValue::new(value_bytes) {
            Ok(v) => v,
            Err(e) => return Err(RequestError::XattrValueError(e)),
        };
        Ok(
            SetxattrRequest {
                node_id,
                name,
                flags: SetxattrRequestFlags { bits: ext_flags },
                setxattr_flags: flags,
                value,
            },
        )
    }

    /// The node whose attribute is set.
    pub fn node_id(&self) -> (r: NodeId)
        ensures
            r@ == self.spec_fields().node_id,
    {
        self.node_id
    }

    /// The name of the attribute.
    pub fn name(&self) -> (r: XattrName<'a>)
        ensures
            r.view_bytes() == self.spec_fields().name,
    {
        self.name
    }

    /// The `FUSE_SETXATTR_*` flags of the request.
    pub fn flags(&self) -> (r: SetxattrRequestFlags)
        ensures
            r.bits() == self.spec_fields().flags,
    {
        self.flags
    }

    /// The `XATTR_CREATE` / `XATTR_REPLACE` flags of `setxattr`.
    pub fn setxattr_flags(&self) -> (r: u32)
        ensures
            r == self.spec_fields().setxattr_flags,
    {
        self.setxattr_flags
    }

    /// The value of the attribute.
    pub fn value(&self) -> (r: XattrValue<'a>)
        ensures
            r.view_bytes() == self.spec_fields().value,
    {
        self.value
    }
}

// }}}

// SetxattrResponse {{{

/// Response type for `FUSE_SETXATTR`: an empty reply.
#[derive(Clone, Copy, Debug)]
pub struct SetxattrResponse {
    _priv: (),
}

impl SetxattrResponse {
    /// An empty response.
    pub fn new() -> (r: SetxattrResponse) {
        SetxattrResponse { _priv: () }
    }
}

impl FuseReply for SetxattrResponse {
    open spec fn spec_payload(&self, layout: FuseLayout) -> Seq<u8> {
        Seq::empty()
    }

    fn send_to<S: FuseSocket>(&self, reply_sender: FuseReplySender<'_, S>) -> Result<
        (),
        SendError<S::Error>,
    > {
        reply_sender.inner.send_0(0)
    }
}

// }}}

// SetxattrRequestFlags {{{

/// The `FUSE_SETXATTR_*` flags of a setxattr request.
#[derive(Clone, Copy, Debug, PartialEq, Eq, Structural)]
pub struct SetxattrRequestFlags {
    bits: u32,
}

/// One of the `FUSE_SETXATTR_*` flags.
#[allow(non_camel_case_types)]
#[derive(Clone, Copy, Debug, PartialEq, Eq, Structural)]
pub enum SetxattrRequestFlag {
    /// Clear the set-group-ID bit when the ACL changes.
    ACL_KILL_SGID,
}

impl SetxattrRequestFlag {
    /// The bit of this flag.
    pub open spec fn spec_mask(self) -> u32 {
        match self {
            SetxattrRequestFlag::ACL_KILL_SGID => FUSE_SETXATTR_ACL_KILL_SGID,
        }
    }

    /// The bit of this flag.
    pub fn mask(&self) -> (r: u32)
        ensures
            r == self.spec_mask(),
    {
        match self {
            SetxattrRequestFlag::ACL_KILL_SGID => FUSE_SETXATTR_ACL_KILL_SGID,
        }
    }
}

impl SetxattrRequestFlags {
    /// The raw bits.
    pub closed spec fn bits(self) -> u32 {
        self.bits
    }

    /// Flags with no bit set.
    pub fn new() -> (r: SetxattrRequestFlags)
        ensures
            r.bits() == 0,
    {
        SetxattrRequestFlags { bits: 0 }
    }

    /// Flags with the raw bits `bits`.
    pub fn from_bits(bits: u32) -> (r: SetxattrRequestFlags)
        ensures
            r.bits() == bits,
    {
        SetxattrRequestFlags { bits }
    }

    /// The raw bits.
    pub fn to_bits(&self) -> (r: u32)
        ensures
            r == self.bits(),
    {
        self.bits
    }

    /// Whether `flag` is set.
    pub fn get(&self, flag: SetxattrRequestFlag) -> (r: bool)
        ensures
            r == (self.bits() & flag.spec_mask() != 0),
    {
        self.bits & flag.mask() != 0
    }
}

// }}}

impl FlagNames for SetxattrRequestFlags {
    open spec fn spec_flag_name(mask: u32) -> Option<Seq<u8>> {
        if mask == FUSE_SETXATTR_ACL_KILL_SGID {
            Some(seq![65u8, 67u8, 76u8, 95u8, 75u8, 73u8, 76u8, 76u8, 95u8, 83u8, 71u8, 73u8, 68u8])
        } else {
            None
        }
    }

    fn flag_name(mask: u32) -> (r: Option<&'static [u8]>) {
        if mask == FUSE_SETXATTR_ACL_KILL_SGID {
            let b: &'static [u8] = &[65u8, 67u8, 76u8, 95u8, 75u8, 73u8, 76u8, 76u8, 95u8, 83u8, 71u8, 73u8, 68u8];
            proof {
                assert(b@ =~= seq![65u8, 67u8, 76u8, 95u8, 75u8, 73u8, 76u8, 76u8, 95u8, 83u8, 71u8, 73u8, 68u8]);
            }
            Some(b)
        } else {
            None
        }
    }
}

/// How setxattr request flags are shown in a request's rendering.
pub open spec fn spec_setxattr_flags_text(bits: u32) -> Seq<u8> {
    spec_flags_text::<SetxattrRequestFlags>(ascii_of("SetxattrRequestFlags"@), bits)
}

impl SetxattrRequestFlags {
    /// How these flags are shown in a request's rendering.
    pub fn debug_text(&self) -> (r: Vec<u8>)
        ensures
            r@ == spec_setxattr_flags_text(self.bits()),
            is_ascii_bytes(r@),
    {
        proof {
            reveal_strlit("SetxattrRequestFlags");
        }
        flags_text::<SetxattrRequestFlags>("SetxattrRequestFlags", self.bits)
    }
}

impl<'a> SetxattrRequest<'a> {
    /// The `{:#?}` rendering of this request.
    pub fn debug_string(&self) -> (r: String)
        ensures
            r@ == to_chars(spec_debug_struct(ascii_of("SetxattrRequest"@), seq![
                (ascii_of("node_id"@), spec_dec(self.spec_fields().node_id as nat)),
                (ascii_of("name"@), crate::debug::spec_quoted_text(self.spec_fields().name)),
                (ascii_of("flags"@), spec_setxattr_flags_text(self.spec_fields().flags)),
                (ascii_of("setxattr_flags"@), crate::debug::spec_hex_text(self.spec_fields().setxattr_flags as nat, 8)),
                (ascii_of("value"@), crate::debug::spec_quoted_text(self.spec_fields().value)),
            ])),
    {
        proof {
            reveal_strlit("SetxattrRequest");
            reveal_strlit("node_id");
            reveal_strlit("name");
            reveal_strlit("flags");
            reveal_strlit("setxattr_flags");
            reveal_strlit("value");
        }
        let d = DebugStruct::new("SetxattrRequest");
        let d = d.field("node_id", crate::debug::dec_text(self.node_id.get()).as_slice());
        let d = d.field("name", crate::debug::quoted_text(self.name.as_bytes()).as_slice());
        let d = d.field("flags", self.flags.debug_text().as_slice());
        let d = d.field("setxattr_flags", crate::debug::hex_text(self.setxattr_flags as u64, 8).as_slice());
        let d = d.field("value", crate::debug::quoted_text(self.value.as_bytes()).as_slice());
        proof {
            assert(d.spec_fields() =~= seq![
                (ascii_of("node_id"@), spec_dec(self.spec_fields().node_id as nat)),
                (ascii_of("name"@), crate::debug::spec_quoted_text(self.spec_fields().name)),
                (ascii_of("flags"@), spec_setxattr_flags_text(self.spec_fields().flags)),
                (ascii_of("setxattr_flags"@), crate::debug::spec_hex_text(self.spec_fields().setxattr_flags as nat, 8)),
                (ascii_of("value"@), crate::debug::spec_quoted_text(self.spec_fields().value)),
            ]);
        }
        d.finish()
    }
}


impl SetxattrResponse {
    /// The `{:#?}` rendering of this value: the bare type name.
    pub fn debug_string(&self) -> (r: String)
        ensures
            r@ == to_chars(spec_debug_struct(ascii_of("SetxattrResponse"@), Seq::empty())),
    {
        proof {
            reveal_strlit("SetxattrResponse");
        }
        DebugStruct::new("SetxattrResponse").finish()
    }
}

} // verus!
