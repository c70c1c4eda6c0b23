//! Validated extended attribute names and values.

use vstd::prelude::*;

use crate::debug::{quoted_text, spec_quoted_text, to_chars};
use crate::text::string_from_ascii;
use vstd::string::StringSliceAdditionalSpecFns;
use vstd::utf8::valid_utf8;

use crate::error::{XattrNameError, XattrValueError};
use crate::text::str_from_utf8;

verus! {

/// The maximum length of an extended attribute name list, in bytes
/// (Linux `XATTR_LIST_MAX`).
pub const XATTR_LIST_MAX: usize = 65536;

/// The maximum length of an extended attribute name, in bytes
/// (Linux `XATTR_NAME_MAX`).
pub const XATTR_NAME_MAX: usize = 255;

/// The maximum length of an extended attribute value, in bytes
/// (Linux `XATTR_SIZE_MAX`).
pub const XATTR_SIZE_MAX: usize = 65536;

/// The platform's limit on the length of a name list, if it has one.
pub fn xattr_list_max() -> (r: Option<usize>)
    ensures
        r == Some(XATTR_LIST_MAX),
{
    Some(XATTR_LIST_MAX)
}

/// The platform's limit on the length of a name, if it has one.
pub fn xattr_name_max() -> (r: Option<usize>)
    ensures
        r == Some(XATTR_NAME_MAX),
{
    Some(XATTR_NAME_MAX)
}

/// The platform's limit on the length of a value, if it has one.
pub fn xattr_size_max() -> (r: Option<usize>)
    ensures
        r == Some(XATTR_SIZE_MAX),
{
    Some(XATTR_SIZE_MAX)
}

// XattrName {{{

/// The result of validating `bytes` as an extended attribute name.
pub open spec fn spec_check_xattr_name(bytes: Seq<u8>) -> Result<(), XattrNameError> {
    if bytes.len() == 0 {
        Err(XattrNameError::Empty)
    } else if bytes.len() > XATTR_NAME_MAX {
        Err(XattrNameError::ExceedsMaxLen)
    } else if bytes.contains(0u8) {
        Err(XattrNameError::ContainsNul)
    } else {
        Ok(())
    }
}

/// A valid extended attribute name: non-empty, at most [`XATTR_NAME_MAX`]
/// bytes, and free of `NUL`.
pub open spec fn is_valid_xattr_name(bytes: Seq<u8>) -> bool {
    spec_check_xattr_name(bytes) is Ok
}

/// Returns whether `bytes` holds a `NUL`.
pub fn contains_nul(bytes: &[u8]) -> (r: bool)
    ensures
        r == bytes@.contains(0u8),
{
    let mut i: usize = 0;
    while i < bytes.len()
        invariant
            i <= bytes@.len(),
            forall|j: int| 0 <= j < i ==> bytes@[j] != 0u8,
        decreases bytes@.len() - i,
    {
        if bytes[i] == 0 {
            assert(bytes@[i as int] == 0u8);
            return true;
        }
        i = i + 1;
    }
    false
}

/// A borrowed extended attribute name.
///
/// A value of this type always holds a valid name: non-empty, at most
/// [`XATTR_NAME_MAX`] bytes long, and free of `NUL`.
#[derive(Clone, Copy, Debug, PartialEq, Eq, Hash, PartialOrd, Ord)]
pub struct XattrName<'a> {
    bytes: &'a [u8],
}

impl<'a> XattrName<'a> {
    #[verifier::type_invariant]
    spec fn valid(self) -> bool {
        is_valid_xattr_name(self.bytes@)
    }

    /// The bytes of this name.
    pub closed spec fn view_bytes(self) -> Seq<u8> {
        self.bytes@
    }

    /// Attempts to reborrow a string as an extended attribute name.
    pub fn new(name: &'a str) -> (r: Result<XattrName<'a>, XattrNameError>)
        ensures
            r matches Ok(n) ==> n.view_bytes() == name.spec_bytes(),
            r matches Ok(_) <==> spec_check_xattr_name(name.spec_bytes()) is Ok,
            r matches Err(e) ==> spec_check_xattr_name(name.spec_bytes()) == Err::<(), _>(e),
    {
        XattrName::from_bytes(name.as_bytes())
    }

    /// Attempts to reborrow a byte slice as an extended attribute name.
    ///
    /// Fails when the slice is empty, is longer than [`XATTR_NAME_MAX`], or
    /// holds `NUL`, checked in that order.
    pub fn from_bytes(bytes: &'a [u8]) -> (r: Result<XattrName<'a>, XattrNameError>)
        ensures
            r matches Ok(n) ==> n.view_bytes() == bytes@,
            r matches Ok(_) <==> spec_check_xattr_name(bytes@) is Ok,
            r matches Err(e) ==> spec_check_xattr_name(bytes@) == Err::<(), _>(e),
    {
        if bytes.len() == 0 {
            return Err(XattrNameError::Empty);
        }
        if bytes.len() > XATTR_NAME_MAX {
            return Err(XattrNameError::ExceedsMaxLen);
        }
        if contains_nul(bytes) {
            return Err(XattrNameError::ContainsNul);
        }
        Ok(XattrName { bytes })
    }

    /// Reborrows a string that is already known to be a valid name.
    pub fn new_unchecked(name: &'a str) -> (r: XattrName<'a>)
        requires
            is_valid_xattr_name(name.spec_bytes()),
        ensures
            r.view_bytes() == name.spec_bytes(),
    {
        XattrName::from_bytes_unchecked(name.as_bytes())
    }

    /// Reborrows a byte slice that is already known to be a valid name.
    pub fn from_bytes_unchecked(bytes: &'a [u8]) -> (r: XattrName<'a>)
        requires
            is_valid_xattr_name(bytes@),
        ensures
            r.view_bytes() == bytes@,
    {
        XattrName { bytes }
    }

    /// How many bytes are required to encode this name, counting its `NUL`
    /// terminator.
    pub fn size(&self) -> (r: usize)
        ensures
            r == self.view_bytes().len() + 1,
    {
        proof {
            use_type_invariant(self);
        }
        self.bytes.len() + 1
    }

    /// This name as a byte slice.
    pub fn as_bytes(&self) -> (r: &'a [u8])
        ensures
            r@ == self.view_bytes(),
            is_valid_xattr_name(r@),
    {
        proof {
            use_type_invariant(self);
        }
        self.bytes
    }

    /// This name as a string, if it is valid UTF-8.
    pub fn as_str(&self) -> (r: Result<&'a str, core::str::Utf8Error>)
        ensures
            r is Ok <==> valid_utf8(self.view_bytes()),
            r matches Ok(s) ==> s.spec_bytes() == self.view_bytes(),
    {
        str_from_utf8(self.bytes)
    }
}

// }}}

// XattrValue {{{

/// The result of validating `bytes` as an extended attribute value.
pub open spec fn spec_check_xattr_value(bytes: Seq<u8>) -> Result<(), XattrValueError> {
    if bytes.len() > XATTR_SIZE_MAX {
        Err(XattrValueError::ExceedsMaxLen)
    } else {
        Ok(())
    }
}

/// A borrowed extended attribute value, at most [`XATTR_SIZE_MAX`] bytes long.
#[derive(Clone, Copy, Debug, PartialEq, Eq, Hash, PartialOrd, Ord)]
pub struct XattrValue<'a> {
    bytes: &'a [u8],
}

impl<'a> XattrValue<'a> {
    #[verifier::type_invariant]
    spec fn valid(self) -> bool {
        self.bytes@.len() <= XATTR_SIZE_MAX
    }

    /// The bytes of this value.
    pub closed spec fn view_bytes(self) -> Seq<u8> {
        self.bytes@
    }

    /// Attempts to reborrow a byte slice as an extended attribute value.
    pub fn new(bytes: &'a [u8]) -> (r: Result<XattrValue<'a>, XattrValueError>)
        ensures
            r matches Ok(v) ==> v.view_bytes() == bytes@,
            r matches Ok(_) <==> bytes@.len() <= XATTR_SIZE_MAX,
            r matches Err(e) ==> e == XattrValueError::ExceedsMaxLen,
    {
        if bytes.len() > XATTR_SIZE_MAX {
            return Err(XattrValueError::ExceedsMaxLen);
        }
        Ok(XattrValue { bytes })
    }

    /// Reborrows a byte slice already known to be at most
    /// [`XATTR_SIZE_MAX`] bytes long.
    pub fn new_unchecked(bytes: &'a [u8]) -> (r: XattrValue<'a>)
        requires
            bytes@.len() <= XATTR_SIZE_MAX,
        ensures
            r.view_bytes() == bytes@,
    {
        XattrValue { bytes }
    }

    /// How many bytes are required to encode this value.
    pub fn size(&self) -> (r: usize)
        ensures
            r == self.view_bytes().len(),
            r <= XATTR_SIZE_MAX,
    {
        proof {
            use_type_invariant(self);
        }
        self.bytes.len()
    }

    /// This value as a byte slice.
    pub fn as_bytes(&self) -> (r: &'a [u8])
        ensures
            r@ == self.view_bytes(),
            r@.len() <= XATTR_SIZE_MAX,
    {
        proof {
            use_type_invariant(self);
        }
        self.bytes
    }
}

// }}}

// XattrError {{{

/// The ways an extended attribute reply may be too large.
#[derive(Clone, Copy, Debug, PartialEq, Eq, Structural)]
pub enum XattrErrorKind {
    /// The name list is longer than [`XATTR_LIST_MAX`].
    ExceedsListMax(usize),
    /// The reply is longer than the buffer holding it: (reply size, capacity).
    ExceedsCapacity(usize, usize),
    /// The value is longer than [`XATTR_SIZE_MAX`].
    ExceedsSizeMax(usize),
    /// The reply is longer than the size the client asked for: (reply size,
    /// request size).
    ExceedsRequestSize(usize, u32),
}

/// An error building an extended attribute reply.
#[derive(Clone, Copy, Debug, PartialEq, Eq, Structural)]
pub struct XattrError {
    kind: XattrErrorKind,
}

impl XattrError {
    /// What went wrong.
    pub closed spec fn spec_kind(self) -> XattrErrorKind {
        self.kind
    }

    /// What went wrong.
    pub fn kind(&self) -> (r: XattrErrorKind)
        ensures
            r == self.spec_kind(),
    {
        self.kind
    }

    /// The name list of `response_size` bytes exceeds [`XATTR_LIST_MAX`].
    pub fn exceeds_list_max(response_size: usize) -> (e: XattrError)
        ensures
            e.spec_kind() == XattrErrorKind::ExceedsListMax(response_size),
    {
        XattrError { kind: XattrErrorKind::ExceedsListMax(response_size) }
    }

    /// The reply of `response_size` bytes exceeds the buffer's `capacity`.
    pub fn exceeds_capacity(response_size: usize, capacity: usize) -> (e: XattrError)
        ensures
            e.spec_kind() == XattrErrorKind::ExceedsCapacity(response_size, capacity),
    {
        XattrError { kind: XattrErrorKind::ExceedsCapacity(response_size, capacity) }
    }

    /// The value of `value_size` bytes exceeds [`XATTR_SIZE_MAX`].
    pub fn exceeds_size_max(value_size: usize) -> (e: XattrError)
        ensures
            e.spec_kind() == XattrErrorKind::ExceedsSizeMax(value_size),
    {
        XattrError { kind: XattrErrorKind::ExceedsSizeMax(value_size) }
    }

    /// The reply of `response_size` bytes exceeds the `request_size` the
    /// client asked for.
    pub fn exceeds_request_size(response_size: usize, request_size: u32) -> (e: XattrError)
        ensures
            e.spec_kind() == XattrErrorKind::ExceedsRequestSize(response_size, request_size),
    {
        XattrError { kind: XattrErrorKind::ExceedsRequestSize(response_size, request_size) }
    }
}

// }}}


impl<'a> XattrName<'a> {
    /// The `{:?}` rendering: the name quoted, each byte escaped as
    /// `core::ascii::escape_default` escapes it.
    pub fn debug_string(&self) -> (r: String)
        ensures
            r@ == to_chars(spec_quoted_text(self.view_bytes())),
    {
        string_from_ascii(quoted_text(self.as_bytes()))
    }
}

} // verus!
