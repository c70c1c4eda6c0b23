//! Validated filesystem node names.

use vstd::prelude::*;

use crate::debug::{quoted_text, spec_quoted_text, to_chars};
use crate::text::string_from_ascii;

use vstd::string::StringSliceAdditionalSpecFns;

use vstd::utf8::valid_utf8;

use crate::error::NodeNameError;
use crate::text::str_from_utf8;

verus! {

/// The maximum length of a node name, in bytes (Linux `FUSE_NAME_MAX`).
pub const NAME_MAX: usize = 1024;

/// The platform's limit on node name length, if it has one.
pub fn name_max() -> (r: Option<usize>)
    ensures
        r == Some(NAME_MAX),
{
    Some(NAME_MAX)
}

/// A byte that may not appear in a node name.
pub open spec fn is_forbidden_name_byte(b: u8) -> bool {
    b == 0u8 || b == 0x2fu8
}

/// The outcome of scanning `bytes[i..]` for forbidden bytes: the first `NUL`
/// or `'/'` found decides the error.
pub open spec fn spec_scan_name(bytes: Seq<u8>, i: int) -> Result<(), NodeNameError>
    decreases bytes.len() - i,
{
    if i < 0 || i >= bytes.len() {
        Ok(())
    } else if bytes[i] == 0u8 {
        Err(NodeNameError::ContainsNul)
    } else if bytes[i] == 0x2fu8 {
        Err(NodeNameError::ContainsSlash)
    } else {
        spec_scan_name(bytes, i + 1)
    }
}

/// The result of validating `bytes` as a node name.
pub open spec fn spec_check_node_name(bytes: Seq<u8>) -> Result<(), NodeNameError> {
    if bytes.len() == 0 {
        Err(NodeNameError::Empty)
    } else if bytes.len() > NAME_MAX {
        Err(NodeNameError::ExceedsMaxLen)
    } else {
        spec_scan_name(bytes, 0)
    }
}

/// A valid node name: non-empty, at most [`NAME_MAX`] bytes, and free of
/// `NUL` and `'/'`.
pub open spec fn is_valid_node_name(bytes: Seq<u8>) -> bool {
    &&& 0 < bytes.len() <= NAME_MAX
    &&& forall|i: int| 0 <= i < bytes.len() ==> !is_forbidden_name_byte(#[trigger] bytes[i])
}

/// Scanning finds no forbidden byte exactly when there is none past `i`.
pub proof fn lemma_scan_name_ok(bytes: Seq<u8>, i: int)
    requires
        0 <= i <= bytes.len(),
    ensures
        spec_scan_name(bytes, i) is Ok <==> forall|j: int|
            i <= j < bytes.len() ==> !is_forbidden_name_byte(#[trigger] bytes[j]),
    decreases bytes.len() - i,
{
    if i < bytes.len() {
        lemma_scan_name_ok(bytes, i + 1);
        if spec_scan_name(bytes, i + 1) is Ok && !is_forbidden_name_byte(bytes[i]) {
            assert forall|j: int| i <= j < bytes.len() implies !is_forbidden_name_byte(
                #[trigger] bytes[j],
            ) by {
                if j > i {
                }
            }
        }
    }
}

/// Validation accepts exactly the valid node names.
pub proof fn lemma_check_node_name_ok(bytes: Seq<u8>)
    ensures
        spec_check_node_name(bytes) is Ok <==> is_valid_node_name(bytes),
{
    lemma_scan_name_ok(bytes, 0);
}

/// Validates `bytes` as a node name.
pub fn check_node_name(bytes: &[u8]) -> (r: Result<(), NodeNameError>)
    ensures
        r == spec_check_node_name(bytes@),
{
    if bytes.len() == 0 {
        return Err(NodeNameError::Empty);
    }
    if bytes.len() > NAME_MAX {
        return Err(NodeNameError::ExceedsMaxLen);
    }
    let mut i: usize = 0;
    while i < bytes.len()
        invariant
            i <= bytes@.len(),
            0 < bytes@.len() <= NAME_MAX,
            spec_check_node_name(bytes@) == spec_scan_name(bytes@, i as int),
        decreases bytes@.len() - i,
    {
        let b = bytes[i];
        if b == 0 {
            return Err(NodeNameError::ContainsNul);
        }
        if b == 0x2f {
            return Err(NodeNameError::ContainsSlash);
        }
        i = i + 1;
    }
    Ok(())
}

/// A borrowed filesystem node name.
///
/// A value of this type always holds a valid node name: non-empty, at most
/// [`NAME_MAX`] bytes long, and containing neither `NUL` nor `'/'`.
#[derive(Clone, Copy, Debug, PartialEq, Eq, Hash, PartialOrd, Ord)]
pub struct NodeName<'a> {
    bytes: &'a [u8],
}

impl<'a> NodeName<'a> {
    #[verifier::type_invariant]
    spec fn valid(self) -> bool {
        is_valid_node_name(self.bytes@)
    }

    /// The bytes of this name.
    pub closed spec fn view_bytes(self) -> Seq<u8> {
        self.bytes@
    }

    /// Attempts to reborrow a string as a node name.
    pub fn new(name: &'a str) -> (r: Result<NodeName<'a>, NodeNameError>)
        ensures
            r matches Ok(n) ==> n.view_bytes() == name.spec_bytes(),
            r matches Ok(_) <==> spec_check_node_name(name.spec_bytes()) is Ok,
            r matches Err(e) ==> spec_check_node_name(name.spec_bytes()) == Err::<(), _>(e),
    {
        NodeName::from_bytes(name.as_bytes())
    }

    /// Attempts to reborrow a byte slice as a node name.
    ///
    /// Fails when the slice is empty, is longer than [`NAME_MAX`], or holds
    /// `NUL` or `'/'`; of the last two, the first one found is reported.
    pub fn from_bytes(bytes: &'a [u8]) -> (r: Result<NodeName<'a>, NodeNameError>)
        ensures
            r matches Ok(n) ==> n.view_bytes() == bytes@,
            r matches Ok(_) <==> spec_check_node_name(bytes@) is Ok,
            r matches Err(e) ==> spec_check_node_name(bytes@) == Err::<(), _>(e),
    {
        match check_node_name(bytes) {
            Ok(()) => {
                proof {
                    lemma_check_node_name_ok(bytes@);
                }
                Ok(NodeName { bytes })
            },
            Err(e) => Err(e),
        }
    }

    /// Reborrows a string that is already known to be a valid node name.
    pub fn new_unchecked(name: &'a str) -> (r: NodeName<'a>)
        requires
            is_valid_node_name(name.spec_bytes()),
        ensures
            r.view_bytes() == name.spec_bytes(),
    {
        NodeName::from_bytes_unchecked(name.as_bytes())
    }

    /// Reborrows a byte slice that is already known to be a valid node name.
    pub fn from_bytes_unchecked(bytes: &'a [u8]) -> (r: NodeName<'a>)
        requires
            is_valid_node_name(bytes@),
        ensures
            r.view_bytes() == bytes@,
    {
        NodeName { bytes }
    }

    /// This name as a byte slice.
    pub fn as_bytes(&self) -> (r: &'a [u8])
        ensures
            r@ == self.view_bytes(),
            is_valid_node_name(r@),
    {
        proof {
            use_type_invariant(self);
        }
        self.bytes
    }

    /// This name as a string, if it is valid UTF-8.
    pub fn as_str(&self) -> (r: Result<&'a str, core::str::Utf8Error>)
        ensures
            r is Ok <==> valid_utf8(self.view_bytes()),
            r matches Ok(s) ==> s.spec_bytes() == self.view_bytes(),
    {
        str_from_utf8(self.bytes)
    }

    /// The length of this name in bytes.
    pub fn len(&self) -> (r: usize)
        ensures
            r == self.view_bytes().len(),
            0 < r <= NAME_MAX,
    {
        proof {
            use_type_invariant(self);
        }
        self.bytes.len()
    }
}


impl<'a> NodeName<'a> {
    /// The `{:?}` rendering: the name quoted, each byte escaped as
    /// `core::ascii::escape_default` escapes it.
    pub fn debug_string(&self) -> (r: String)
        ensures
            r@ == to_chars(spec_quoted_text(self.view_bytes())),
    {
        string_from_ascii(quoted_text(self.as_bytes()))
    }
}

} // verus!
