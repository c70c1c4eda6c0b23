//! Error values: the errno sent in a reply, and the reasons a request is
//! rejected.

use vstd::prelude::*;

verus! {

// Error {{{

/// Linux `errno` values used by the server itself.
pub const EINTR: i32 = 4;
pub const ENOENT: i32 = 2;
pub const E2BIG: i32 = 7;
pub const EAGAIN: i32 = 11;
pub const EINVAL: i32 = 22;
pub const ENOSYS: i32 = 38;
pub const EPROTO: i32 = 71;
pub const EOVERFLOW: i32 = 75;

/// An error sent to the client in place of a reply.
///
/// The value held is the one written to `fuse_out_header::error`: the
/// negated error number, which is never zero.
#[derive(Clone, Copy, Debug, PartialEq, Eq, Structural)]
pub struct Error {
    code: i32,
}

impl Error {
    #[verifier::type_invariant]
    spec fn nonzero(self) -> bool {
        self.code != 0
    }

    /// The code written to the reply header.
    pub closed spec fn spec_code(self) -> i32 {
        self.code
    }

    /// An error carrying the reply code `code`, if it is not zero.
    pub fn new(code: i32) -> (r: Option<Error>)
        ensures
            r is Some <==> code != 0,
            r matches Some(e) ==> e.spec_code() == code,
    {
        if code == 0 {
            None
        } else {
            Some(Error { code })
        }
    }

    /// The error for a POSIX error number `errno` (which must be positive).
    pub fn from_errno(errno: i32) -> (e: Error)
        requires
            0 < errno,
        ensures
            e.spec_code() == -errno,
    {
        Error { code: -errno }
    }

    /// The code written to the reply header; never zero.
    pub fn raw_fuse_error_code(&self) -> (r: i32)
        ensures
            r == self.spec_code(),
            r != 0,
    {
        proof {
            use_type_invariant(self);
        }
        self.code
    }

    /// The operation was interrupted (`EINTR`).
    pub fn interrupted() -> (e: Error)
        ensures
            e.spec_code() == -EINTR,
    {
        Error::from_errno(EINTR)
    }

    /// The client specified an invalid argument (`EINVAL`).
    pub fn invalid_argument() -> (e: Error)
        ensures
            e.spec_code() == -EINVAL,
    {
        Error::from_errno(EINVAL)
    }

    /// The requested node does not exist (`ENOENT`).
    pub fn not_found() -> (e: Error)
        ensures
            e.spec_code() == -ENOENT,
    {
        Error::from_errno(ENOENT)
    }

    /// A value is too large for its type (`EOVERFLOW`).
    pub fn overflow() -> (e: Error)
        ensures
            e.spec_code() == -EOVERFLOW,
    {
        Error::from_errno(EOVERFLOW)
    }

    /// A message violated the FUSE protocol (`EPROTO`).
    pub fn protocol_error() -> (e: Error)
        ensures
            e.spec_code() == -EPROTO,
    {
        Error::from_errno(EPROTO)
    }

    /// The operation is temporarily unavailable (`EAGAIN`).
    pub fn unavailable() -> (e: Error)
        ensures
            e.spec_code() == -EAGAIN,
    {
        Error::from_errno(EAGAIN)
    }

    /// The operation is not implemented by this server (`ENOSYS`).
    pub fn unimplemented() -> (e: Error)
        ensures
            e.spec_code() == -ENOSYS,
    {
        Error::from_errno(ENOSYS)
    }
}

// }}}

// Validation errors {{{

/// Errors that may occur when validating the content of a node name.
#[derive(Clone, Copy, Debug, PartialEq, Eq, Structural, Hash, PartialOrd, Ord)]
pub enum NodeNameError {
    /// The input is empty.
    Empty,
    /// The input contains `NUL`.
    ContainsNul,
    /// The input contains `'/'`.
    ContainsSlash,
    /// The input length in bytes exceeds the maximum name length.
    ExceedsMaxLen,
}

/// Errors that may occur when validating an extended attribute name.
#[derive(Clone, Copy, Debug, PartialEq, Eq, Structural, Hash, PartialOrd, Ord)]
pub enum XattrNameError {
    /// The input is empty.
    Empty,
    /// The input contains `NUL`.
    ContainsNul,
    /// The input length in bytes exceeds the maximum name length.
    ExceedsMaxLen,
}

/// Errors that may occur when validating an extended attribute value.
#[derive(Clone, Copy, Debug, PartialEq, Eq, Structural, Hash, PartialOrd, Ord)]
pub enum XattrValueError {
    /// The input length in bytes exceeds the maximum value length.
    ExceedsMaxLen,
}

/// Errors that may occur when decoding a file lock.
#[derive(Clone, Copy, Debug, PartialEq, Eq, Structural)]
pub enum LockError {
    /// The lock type is neither a shared nor an exclusive lock.
    UnsupportedMode,
}

// }}}

// RequestError {{{

/// Errors describing why a request is invalid.
#[derive(Clone, Copy, Debug, PartialEq, Eq, Structural)]
pub enum RequestError {
    /// The request contains an invalid lock.
    LockError(LockError),
    /// The request is missing one or more node IDs.
    MissingNodeId,
    /// The request is a `FUSE_INTERRUPT` with a missing request ID.
    MissingRequestId,
    /// The request contains an invalid node name.
    NodeNameError(NodeNameError),
    /// The request contains a timestamp with too many nanoseconds.
    TimestampOverflow,
    /// The request contains an invalid extended attribute name.
    XattrNameError(XattrNameError),
    /// The request contains an invalid extended attribute value.
    XattrValueError(XattrValueError),
    /// The request header's request ID is zero.
    InvalidRequestId,
    /// The request buffer contains an incomplete request.
    UnexpectedEof,
    /// Attempted to decode a request as the wrong type.
    OpcodeMismatch,
}

/// The reply code sent when a request cannot be decoded: a request that is
/// incomplete or has no ID violates the protocol, any other flaw is an
/// invalid argument.
pub open spec fn spec_request_error_code(err: RequestError) -> int {
    match err {
        RequestError::UnexpectedEof => -EPROTO,
        RequestError::InvalidRequestId => -EPROTO,
        _ => -EINVAL,
    }
}

/// The error reply for a request that could not be decoded.
pub fn request_error_reply(err: RequestError) -> (e: Error)
    ensures
        e.spec_code() == spec_request_error_code(err),
{
    match err {
        RequestError::UnexpectedEof => Error::protocol_error(),
        RequestError::InvalidRequestId => Error::protocol_error(),
        _ => Error::invalid_argument(),
    }
}

// }}}

} // verus!
