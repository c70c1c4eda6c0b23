//! FreeBSD: its error numbers, lock modes and mount options.

use vstd::prelude::*;

use crate::debug::{
    ascii_of,
    bool_text,
    none_text,
    quoted_text,
    some_text,
    spec_bool_text,
    spec_debug_struct,
    spec_none_text,
    spec_quoted_text,
    spec_some_text,
    to_chars,
    DebugStruct,
};
use crate::error::Error as FuseError;
use crate::text::string_from_ascii;
use crate::linux::{contains_byte, has_no_nul, holds_byte};
use freebsd_errno::Error as Errno;

verus! {

// Error numbers {{{

#[verifier::external_type_specification]
#[verifier::external_body]
pub struct ExFreebsdErrno(Errno);

/// Calls `freebsd_errno::Error::get`.
///
/// Claims what the crate's source shows: the error holds a `NonZeroI32` and
/// `get` returns it, so the result is never zero. Which number it is, is not
/// stated.
#[verifier::external_body]
fn errno_code(errno: &Errno) -> (r: i32)
    ensures
        r != 0,
{
    errno.get()
}

/// The largest error number a FUSE reply can carry.
pub const MAX_ERRNO: i32 = 65535;

/// The reply code for a FreeBSD error number: its negation, or `-65535` for
/// a number out of range.
pub open spec fn spec_fuse_error_code(errno: i32) -> int {
    if errno < 0 || errno > MAX_ERRNO {
        -MAX_ERRNO
    } else {
        -errno
    }
}

/// The reply code for a FreeBSD error number, which is not zero.
pub fn fuse_error_code(errno: i32) -> (r: i32)
    requires
        errno != 0,
    ensures
        r == spec_fuse_error_code(errno),
        r != 0,
{
    if errno < 0 || errno > MAX_ERRNO {
        -MAX_ERRNO
    } else {
        -errno
    }
}

/// The FUSE error for a FreeBSD error.
pub fn fuse_error(errno: Errno) -> (r: FuseError)
    ensures
        -MAX_ERRNO <= r.spec_code() < 0,
{
    let code = fuse_error_code(errno_code(&errno));
    match FuseError::new(code) {
        Some(e) => e,
        None => FuseError::protocol_error(),
    }
}

/// A FreeBSD error, for use as a FUSE error.
#[derive(Clone, Copy, Debug)]
pub struct OsError(pub Errno);

impl OsError {
    /// The FUSE error for this FreeBSD error.
    pub fn to_error(&self) -> (r: FuseError)
        ensures
            -MAX_ERRNO <= r.spec_code() < 0,
    {
        fuse_error(self.0)
    }
}

/// FreeBSD's `E2BIG`.
pub const FREEBSD_E2BIG: i32 = 7;

/// FreeBSD's `EINTR`.
pub const FREEBSD_EINTR: i32 = 4;

/// FreeBSD's `EINVAL`.
pub const FREEBSD_EINVAL: i32 = 22;

/// FreeBSD's `ENOENT`.
pub const FREEBSD_ENOENT: i32 = 2;

/// FreeBSD's `EOVERFLOW`.
pub const FREEBSD_EOVERFLOW: i32 = 84;

/// FreeBSD's `EPROTO`.
pub const FREEBSD_EPROTO: i32 = 92;

/// FreeBSD's `EAGAIN`.
pub const FREEBSD_EAGAIN: i32 = 35;

/// FreeBSD's `ENOSYS`.
pub const FREEBSD_ENOSYS: i32 = 78;

/// Reads the number of `freebsd_errno::E2BIG`.
///
/// Claims what the crate's source shows: the constant is built from the
/// number `FREEBSD_E2BIG`, and `get` returns that number.
#[verifier::external_body]
fn errno_e2big() -> (r: i32)
    ensures
        r == FREEBSD_E2BIG,
{
    freebsd_errno::E2BIG.get()
}

/// Reads the number of `freebsd_errno::EINTR`.
///
/// Claims what the crate's source shows: the constant is built from the
/// number `FREEBSD_EINTR`, and `get` returns that number.
#[verifier::external_body]
fn errno_eintr() -> (r: i32)
    ensures
        r == FREEBSD_EINTR,
{
    freebsd_errno::EINTR.get()
}

/// Reads the number of `freebsd_errno::EINVAL`.
///
/// Claims what the crate's source shows: the constant is built from the
/// number `FREEBSD_EINVAL`, and `get` returns that number.
#[verifier::external_body]
fn errno_einval() -> (r: i32)
    ensures
        r == FREEBSD_EINVAL,
{
    freebsd_errno::EINVAL.get()
}

/// Reads the number of `freebsd_errno::ENOENT`.
///
/// Claims what the crate's source shows: the constant is built from the
/// number `FREEBSD_ENOENT`, and `get` returns that number.
#[verifier::external_body]
fn errno_enoent() -> (r: i32)
    ensures
        r == FREEBSD_ENOENT,
{
    freebsd_errno::ENOENT.get()
}

/// Reads the number of `freebsd_errno::EOVERFLOW`.
///
/// Claims what the crate's source shows: the constant is built from the
/// number `FREEBSD_EOVERFLOW`, and `get` returns that number.
#[verifier::external_body]
fn errno_eoverflow() -> (r: i32)
    ensures
        r == FREEBSD_EOVERFLOW,
{
    freebsd_errno::EOVERFLOW.get()
}

/// Reads the number of `freebsd_errno::EPROTO`.
///
/// Claims what the crate's source shows: the constant is built from the
/// number `FREEBSD_EPROTO`, and `get` returns that number.
#[verifier::external_body]
fn errno_eproto() -> (r: i32)
    ensures
        r == FREEBSD_EPROTO,
{
    freebsd_errno::EPROTO.get()
}

/// Reads the number of `freebsd_errno::EAGAIN`.
///
/// Claims what the crate's source shows: the constant is built from the
/// number `FREEBSD_EAGAIN`, and `get` returns that number.
#[verifier::external_body]
fn errno_eagain() -> (r: i32)
    ensures
        r == FREEBSD_EAGAIN,
{
    freebsd_errno::EAGAIN.get()
}

/// Reads the number of `freebsd_errno::ENOSYS`.
///
/// Claims what the crate's source shows: the constant is built from the
/// number `FREEBSD_ENOSYS`, and `get` returns that number.
#[verifier::external_body]
fn errno_enosys() -> (r: i32)
    ensures
        r == FREEBSD_ENOSYS,
{
    freebsd_errno::ENOSYS.get()
}

/// The FUSE error for a FreeBSD error number known to be in range.
fn known_error(errno: i32) -> (r: FuseError)
    requires
        0 < errno <= MAX_ERRNO,
    ensures
        r.spec_code() == -errno,
{
    FuseError::from_errno(errno)
}

/// An argument list too long (`E2BIG`).
pub fn e2big() -> (r: FuseError)
    ensures
        r.spec_code() == -FREEBSD_E2BIG,
{
    known_error(errno_e2big())
}

/// The operation was interrupted (`EINTR`).
pub fn interrupted() -> (r: FuseError)
    ensures
        r.spec_code() == -FREEBSD_EINTR,
{
    known_error(errno_eintr())
}

/// The client gave an invalid argument (`EINVAL`).
pub fn invalid_argument() -> (r: FuseError)
    ensures
        r.spec_code() == -FREEBSD_EINVAL,
{
    known_error(errno_einval())
}

/// The file or directory does not exist (`ENOENT`).
pub fn not_found() -> (r: FuseError)
    ensures
        r.spec_code() == -FREEBSD_ENOENT,
{
    known_error(errno_enoent())
}

/// A value is too large for its type (`EOVERFLOW`).
pub fn overflow() -> (r: FuseError)
    ensures
        r.spec_code() == -FREEBSD_EOVERFLOW,
{
    known_error(errno_eoverflow())
}

/// A message violated the protocol (`EPROTO`).
pub fn protocol_error() -> (r: FuseError)
    ensures
        r.spec_code() == -FREEBSD_EPROTO,
{
    known_error(errno_eproto())
}

/// The operation is temporarily unavailable (`EAGAIN`).
pub fn unavailable() -> (r: FuseError)
    ensures
        r.spec_code() == -FREEBSD_EAGAIN,
{
    known_error(errno_eagain())
}

/// The operation is not implemented (`ENOSYS`).
pub fn unimplemented() -> (r: FuseError)
    ensures
        r.spec_code() == -FREEBSD_ENOSYS,
{
    known_error(errno_enosys())
}

// }}}

// Lock modes {{{

/// FreeBSD's shared lock mode.
pub const F_RDLCK: u32 = 1;

/// FreeBSD's exclusive lock mode.
pub const F_WRLCK: u32 = 3;

/// FreeBSD's unlock mode.
pub const F_UNLCK: u32 = 2;

// }}}

// Mount options {{{

/// A FUSE filesystem subtype: a non-empty C string, held as its bytes
/// without the `NUL`.
#[derive(Clone, Copy, Debug, PartialEq, Eq, Hash, PartialOrd, Ord)]
pub struct FuseSubtype<'a> {
    bytes: &'a [u8],
}

impl<'a> FuseSubtype<'a> {
    #[verifier::type_invariant]
    spec fn inv(self) -> bool {
        self.bytes@.len() > 0 && has_no_nul(self.bytes@)
    }

    /// The bytes of the subtype.
    pub closed spec fn view_bytes(self) -> Seq<u8> {
        self.bytes@
    }

    /// The subtype held in `bytes`, unless it is empty or holds a `NUL`.
    pub fn new(bytes: &'a [u8]) -> (r: Option<FuseSubtype<'a>>)
        ensures
            r is Some <==> (bytes@.len() > 0 && !holds_byte(bytes@, 0u8)),
            r matches Some(s) ==> s.view_bytes() == bytes@,
    {
        if bytes.len() == 0 || contains_byte(bytes, 0) {
            return None;
        }
        Some(FuseSubtype { bytes })
    }

    /// Reborrows the bytes of a C string, known to be non-empty and without
    /// `NUL`, as a subtype.
    pub fn new_unchecked(bytes: &'a [u8]) -> (r: FuseSubtype<'a>)
        requires
            bytes@.len() > 0,
            has_no_nul(bytes@),
        ensures
            r.view_bytes() == bytes@,
    {
        FuseSubtype { bytes }
    }

    /// The bytes of the subtype, without a `NUL`.
    pub fn to_bytes(&self) -> (r: &'a [u8])
        ensures
            r@ == self.view_bytes(),
            r@.len() > 0,
    {
        proof {
            use_type_invariant(self);
        }
        self.bytes
    }
}

/// Options for a FreeBSD FUSE mount (`nmount()`).
#[derive(Clone, Copy, Debug)]
pub struct MountOptions<'a> {
    pub default_permissions: bool,
    pub subtype: Option<FuseSubtype<'a>>,
}

impl<'a> MountOptions<'a> {
    /// Options with nothing set.
    pub fn new() -> (r: MountOptions<'a>)
        ensures
            !r.default_permissions,
            r.subtype is None,
    {
        MountOptions { default_permissions: false, subtype: None }
    }

    /// Whether the kernel checks permissions itself.
    pub fn default_permissions(&self) -> (r: bool)
        ensures
            r == self.default_permissions,
    {
        self.default_permissions
    }

    /// Sets `default_permissions`.
    pub fn set_default_permissions(&mut self, default_permissions: bool)
        ensures
            *final(self) == (MountOptions { default_permissions, ..*old(self) }),
    {
        self.default_permissions = default_permissions;
    }

    /// The filesystem subtype (`subtype=`).
    pub fn subtype(&self) -> (r: Option<FuseSubtype<'a>>)
        ensures
            r == self.subtype,
    {
        self.subtype
    }

    /// Sets `subtype=`.
    pub fn set_subtype(&mut self, subtype: Option<FuseSubtype<'a>>)
        ensures
            *final(self) == (MountOptions { subtype, ..*old(self) }),
    {
        self.subtype = subtype;
    }
}

// }}}

// Debug renderings {{{

/// The fields of the `{:#?}` rendering of mount options, by name.
pub open spec fn spec_mount_options_fields(o: MountOptions) -> Seq<(Seq<u8>, Seq<u8>)> {
    seq![
        (ascii_of("default_permissions"@), spec_bool_text(o.default_permissions)),
        (ascii_of("subtype"@), match o.subtype {
            Some(s) => spec_some_text(spec_quoted_text(s.view_bytes())),
            None => spec_none_text(),
        }),
    ]
}

impl<'a> FuseSubtype<'a> {
    /// The `{:?}` rendering: the subtype quoted, as a C string is shown.
    pub fn debug_string(&self) -> (r: String)
        ensures
            r@ == to_chars(spec_quoted_text(self.view_bytes())),
    {
        string_from_ascii(quoted_text(self.to_bytes()))
    }
}

impl<'a> MountOptions<'a> {
    /// The `{:#?}` rendering of the options.
    pub fn debug_string(&self) -> (r: String)
        ensures
            r@ == to_chars(spec_debug_struct(ascii_of("MountOptions"@), spec_mount_options_fields(*self))),
    {
        proof {
            reveal_strlit("MountOptions");
            reveal_strlit("default_permissions");
            reveal_strlit("subtype");
        }
        let subtype = match self.subtype {
            Some(s) => some_text(quoted_text(s.to_bytes())),
            None => none_text(),
        };
        let d = DebugStruct::new("MountOptions");
        let d = d.field("default_permissions", bool_text(self.default_permissions).as_slice());
        let d = d.field("subtype", subtype.as_slice());
        proof {
            assert(d.spec_fields() =~= spec_mount_options_fields(*self));
        }
        d.finish()
    }
}

// }}}

} // verus!
