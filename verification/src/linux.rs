//! Linux mount options, and the `data` string they give `mount()`.

use vstd::prelude::*;

use crate::ascii::{is_ascii_bytes, push_dec, push_oct, spec_dec, spec_oct};
use crate::debug::{
    ascii_of,
    bool_text,
    none_text,
    octal_text,
    opt_dec32_text,
    quoted_text,
    some_text,
    spec_bool_text,
    spec_debug_struct,
    spec_none_text,
    spec_opt_dec32_text,
    spec_quoted_text,
    spec_some_text,
    to_chars,
    DebugStruct,
};
use crate::text::string_from_ascii;
use crate::wire::push_bytes;

verus! {

// Mount parameters {{{

/// Whether `bytes` can be the text of a C string: no `NUL` byte.
pub open spec fn has_no_nul(bytes: Seq<u8>) -> bool {
    forall|i: int| 0 <= i < bytes.len() ==> bytes[i] != 0u8
}

/// Whether `bytes` holds the byte `b`.
pub open spec fn holds_byte(bytes: Seq<u8>, b: u8) -> bool {
    exists|i: int| 0 <= i < bytes.len() && bytes[i] == b
}

/// Whether `bytes` holds the byte `b`.
pub fn contains_byte(bytes: &[u8], b: u8) -> (r: bool)
    ensures
        r == holds_byte(bytes@, b),
{
    let mut i: usize = 0;
    while i < bytes.len()
        invariant
            i <= bytes@.len(),
            forall|j: int| 0 <= j < i ==> bytes@[j] != b,
        decreases bytes@.len() - i,
    {
        if bytes[i] == b {
            return true;
        }
        i = i + 1;
    }
    false
}

/// The `source` argument of a FUSE mount: a non-empty C string, held as its
/// bytes without the `NUL`.
#[derive(Clone, Copy, Debug, PartialEq, Eq, Hash, PartialOrd, Ord)]
pub struct MountSource<'a> {
    bytes: &'a [u8],
}

impl<'a> MountSource<'a> {
    #[verifier::type_invariant]
    spec fn inv(self) -> bool {
        self.bytes@.len() > 0 && has_no_nul(self.bytes@)
    }

    /// The bytes of the mount source.
    pub closed spec fn view_bytes(self) -> Seq<u8> {
        self.bytes@
    }

    /// The mount source `fuse`, the default for FUSE filesystems.
    pub fn fuse() -> (r: MountSource<'static>)
        ensures
            r.view_bytes() == seq![102u8, 117u8, 115u8, 101u8],
    {
        let b: &'static [u8] = &[102u8, 117u8, 115u8, 101u8];
        proof {
            assert(b@ =~= seq![102u8, 117u8, 115u8, 101u8]);
        }
        MountSource { bytes: b }
    }

    /// The mount source held in `bytes`, unless it is empty or holds a `NUL`.
    pub fn new(bytes: &'a [u8]) -> (r: Option<MountSource<'a>>)
        ensures
            r is Some <==> (bytes@.len() > 0 && !holds_byte(bytes@, 0u8)),
            r matches Some(s) ==> s.view_bytes() == bytes@,
    {
        if bytes.len() == 0 || contains_byte(bytes, 0) {
            return None;
        }
        Some(MountSource { bytes })
    }

    /// Reborrows the bytes of a C string, known to be non-empty and without
    /// `NUL`, as a mount source.
    pub fn new_unchecked(bytes: &'a [u8]) -> (r: MountSource<'a>)
        requires
            bytes@.len() > 0,
            has_no_nul(bytes@),
        ensures
            r.view_bytes() == bytes@,
    {
        MountSource { bytes }
    }

    /// The bytes of the mount source, without a `NUL`.
    pub fn to_bytes(&self) -> (r: &'a [u8])
        ensures
            r@ == self.view_bytes(),
            r@.len() > 0,
            has_no_nul(r@),
    {
        proof {
            use_type_invariant(self);
        }
        self.bytes
    }
}

/// The `type` argument of a FUSE mount: a non-empty C string, held as its
/// bytes without the `NUL`. It is `fuse` for normal FUSE filesystems and
/// `fuseblk` for FUSE-wrapped block devices.
#[derive(Clone, Copy, Debug, PartialEq, Eq, Hash, PartialOrd, Ord)]
pub struct MountType<'a> {
    bytes: &'a [u8],
}

/// The bytes `fuse`.
pub open spec fn spec_fuse_bytes() -> Seq<u8> {
    seq![102u8, 117u8, 115u8, 101u8]
}

/// The bytes `fuseblk`.
pub open spec fn spec_fuseblk_bytes() -> Seq<u8> {
    seq![102u8, 117u8, 115u8, 101u8, 98u8, 108u8, 107u8]
}

impl<'a> MountType<'a> {
    #[verifier::type_invariant]
    spec fn inv(self) -> bool {
        self.bytes@.len() > 0 && has_no_nul(self.bytes@)
    }

    /// The bytes of the mount type.
    pub closed spec fn view_bytes(self) -> Seq<u8> {
        self.bytes@
    }

    /// The mount type `fuse`, used for normal FUSE filesystems.
    pub fn fuse() -> (r: MountType<'static>)
        ensures
            r.view_bytes() == spec_fuse_bytes(),
    {
        let b: &'static [u8] = &[102u8, 117u8, 115u8, 101u8];
        proof {
            assert(b@ =~= spec_fuse_bytes());
        }
        MountType { bytes: b }
    }

    /// The mount type `fuseblk`, used for FUSE-wrapped block devices.
    pub fn fuseblk() -> (r: MountType<'static>)
        ensures
            r.view_bytes() == spec_fuseblk_bytes(),
    {
        let b: &'static [u8] = &[102u8, 117u8, 115u8, 101u8, 98u8, 108u8, 107u8];
        proof {
            assert(b@ =~= spec_fuseblk_bytes());
        }
        MountType { bytes: b }
    }

    /// Reborrows the bytes of a C string, known to be non-empty and without
    /// `NUL`, as a mount type.
    pub fn new_unchecked(bytes: &'a [u8]) -> (r: MountType<'a>)
        requires
            bytes@.len() > 0,
            has_no_nul(bytes@),
        ensures
            r.view_bytes() == bytes@,
    {
        MountType { bytes }
    }

    /// The name of the mount type, without a `NUL`.
    pub fn to_bytes(&self) -> (r: &'a [u8])
        ensures
            r@ == self.view_bytes(),
            r@.len() > 0,
            has_no_nul(r@),
    {
        proof {
            use_type_invariant(self);
        }
        self.bytes
    }
}

/// A FUSE filesystem subtype: a non-empty C string without a comma, held as
/// its bytes without the `NUL`.
#[derive(Clone, Copy, Debug, PartialEq, Eq, Hash, PartialOrd, Ord)]
pub struct FuseSubtype<'a> {
    bytes: &'a [u8],
}

/// The byte `,`.
pub const COMMA: u8 = 44;

impl<'a> FuseSubtype<'a> {
    #[verifier::type_invariant]
    spec fn inv(self) -> bool {
        &&& self.bytes@.len() > 0
        &&& has_no_nul(self.bytes@)
        &&& !holds_byte(self.bytes@, COMMA)
    }

    /// The bytes of the subtype.
    pub closed spec fn view_bytes(self) -> Seq<u8> {
        self.bytes@
    }

    /// The subtype held in `bytes`, unless it is empty or holds a `NUL` or a
    /// comma.
    pub fn new(bytes: &'a [u8]) -> (r: Option<FuseSubtype<'a>>)
        ensures
            r is Some <==> (bytes@.len() > 0 && !holds_byte(bytes@, 0u8) && !holds_byte(bytes@, COMMA)),
            r matches Some(s) ==> s.view_bytes() == bytes@,
    {
        if bytes.len() == 0 || contains_byte(bytes, 0) || contains_byte(bytes, COMMA) {
            return None;
        }
        Some(FuseSubtype { bytes })
    }

    /// Reborrows the bytes of a C string, known to be non-empty and without
    /// `NUL` or comma, as a subtype.
    pub fn new_unchecked(bytes: &'a [u8]) -> (r: FuseSubtype<'a>)
        requires
            bytes@.len() > 0,
            has_no_nul(bytes@),
            !holds_byte(bytes@, COMMA),
        ensures
            r.view_bytes() == bytes@,
    {
        FuseSubtype { bytes }
    }

    /// The bytes of the subtype, without a `NUL`.
    pub fn to_bytes(&self) -> (r: &'a [u8])
        ensures
            r@ == self.view_bytes(),
            r@.len() > 0,
            has_no_nul(r@),
            !holds_byte(r@, COMMA),
    {
        proof {
            use_type_invariant(self);
        }
        self.bytes
    }
}

// }}}

// MountOptions {{{

/// Options for a Linux FUSE mount.
#[derive(Clone, Copy, Debug)]
pub struct MountOptions<'a> {
    pub mount_source: MountSource<'a>,
    pub mount_type: MountType<'a>,
    pub allow_other: bool,
    pub block_size: Option<u32>,
    pub default_permissions: bool,
    pub fuse_device_fd: Option<u32>,
    pub subtype: Option<FuseSubtype<'a>>,
    pub group_id: Option<u32>,
    pub max_read: Option<u32>,
    pub root_mode: Option<u32>,
    pub user_id: Option<u32>,
}

impl<'a> MountOptions<'a> {
    /// Options for a `fuse` mount of source `fuse`, with nothing else set.
    pub fn new() -> (r: MountOptions<'static>)
        ensures
            r.mount_source.view_bytes() == spec_fuse_bytes(),
            r.mount_type.view_bytes() == spec_fuse_bytes(),
            !r.allow_other,
            r.block_size is None,
            !r.default_permissions,
            r.fuse_device_fd is None,
            r.subtype is None,
            r.group_id is None,
            r.max_read is None,
            r.root_mode is None,
            r.user_id is None,
    {
        MountOptions {
            mount_source: MountSource::fuse(),
            mount_type: MountType::fuse(),
            allow_other: false,
            block_size: None,
            default_permissions: false,
            fuse_device_fd: None,
            subtype: None,
            group_id: None,
            max_read: None,
            root_mode: None,
            user_id: None,
        }
    }

    /// Whether all users, root included, may access the filesystem
    /// (`allow_other`).
    pub fn allow_other(&self) -> (r: bool)
        ensures
            r == self.allow_other,
    {
        self.allow_other
    }

    /// Sets `allow_other`.
    pub fn set_allow_other(&mut self, allow_other: bool)
        ensures
            *final(self) == (MountOptions { allow_other, ..*old(self) }),
    {
        self.allow_other = allow_other;
    }

    /// The block size of a `fuseblk` mount (`blksize=`).
    pub fn block_size(&self) -> (r: Option<u32>)
        ensures
            r == self.block_size,
    {
        self.block_size
    }

    /// Sets `blksize=`.
    pub fn set_block_size(&mut self, block_size: Option<u32>)
        ensures
            *final(self) == (MountOptions { block_size, ..*old(self) }),
    {
        self.block_size = block_size;
    }

    /// Whether the kernel checks permissions itself (`default_permissions`).
    pub fn default_permissions(&self) -> (r: bool)
        ensures
            r == self.default_permissions,
    {
        self.default_permissions
    }

    /// Sets `default_permissions`.
    pub fn set_default_permissions(&mut self, default_permissions: bool)
        ensures
            *final(self) == (MountOptions { default_permissions, ..*old(self) }),
    {
        self.default_permissions = default_permissions;
    }

    /// The file descriptor of the FUSE device (`fd=`).
    pub fn fuse_device_fd(&self) -> (r: Option<u32>)
        ensures
            r == self.fuse_device_fd,
    {
        self.fuse_device_fd
    }

    /// Sets `fd=`.
    pub fn set_fuse_device_fd(&mut self, fuse_device_fd: Option<u32>)
        ensures
            *final(self) == (MountOptions { fuse_device_fd, ..*old(self) }),
    {
        self.fuse_device_fd = fuse_device_fd;
    }

    /// The group ID of the mount owner (`group_id=`).
    pub fn group_id(&self) -> (r: Option<u32>)
        ensures
            r == self.group_id,
    {
        self.group_id
    }

    /// Sets `group_id=`.
    pub fn set_group_id(&mut self, group_id: Option<u32>)
        ensures
            *final(self) == (MountOptions { group_id, ..*old(self) }),
    {
        self.group_id = group_id;
    }

    /// The largest read the filesystem expects (`max_read=`).
    pub fn max_read(&self) -> (r: Option<u32>)
        ensures
            r == self.max_read,
    {
        self.max_read
    }

    /// Sets `max_read=`.
    pub fn set_max_read(&mut self, max_read: Option<u32>)
        ensures
            *final(self) == (MountOptions { max_read, ..*old(self) }),
    {
        self.max_read = max_read;
    }

    /// The `source` argument of the mount.
    pub fn mount_source(&self) -> (r: MountSource<'a>)
        ensures
            r == self.mount_source,
    {
        self.mount_source
    }

    /// Sets the `source` argument of the mount.
    pub fn set_mount_source(&mut self, mount_source: MountSource<'a>)
        ensures
            *final(self) == (MountOptions { mount_source, ..*old(self) }),
    {
        self.mount_source = mount_source;
    }

    /// The `type` argument of the mount.
    pub fn mount_type(&self) -> (r: MountType<'a>)
        ensures
            r == self.mount_type,
    {
        self.mount_type
    }

    /// Sets the `type` argument of the mount.
    pub fn set_mount_type(&mut self, mount_type: MountType<'a>)
        ensures
            *final(self) == (MountOptions { mount_type, ..*old(self) }),
    {
        self.mount_type = mount_type;
    }

    /// The mode of the filesystem root (`rootmode=`).
    pub fn root_mode(&self) -> (r: Option<u32>)
        ensures
            r == self.root_mode,
    {
        self.root_mode
    }

    /// Sets `rootmode=`.
    pub fn set_root_mode(&mut self, root_mode: Option<u32>)
        ensures
            *final(self) == (MountOptions { root_mode, ..*old(self) }),
    {
        self.root_mode = root_mode;
    }

    /// The filesystem subtype (`subtype=`).
    pub fn subtype(&self) -> (r: Option<FuseSubtype<'a>>)
        ensures
            r == self.subtype,
    {
        self.subtype
    }

    /// Sets `subtype=`.
    pub fn set_subtype(&mut self, subtype: Option<FuseSubtype<'a>>)
        ensures
            *final(self) == (MountOptions { subtype, ..*old(self) }),
    {
        self.subtype = subtype;
    }

    /// The user ID of the mount owner (`user_id=`).
    pub fn user_id(&self) -> (r: Option<u32>)
        ensures
            r == self.user_id,
    {
        self.user_id
    }

    /// Sets `user_id=`.
    pub fn set_user_id(&mut self, user_id: Option<u32>)
        ensures
            *final(self) == (MountOptions { user_id, ..*old(self) }),
    {
        self.user_id = user_id;
    }
}

// }}}

// Debug renderings {{{

/// An optional C string, shown quoted.
pub open spec fn spec_opt_quoted_text(o: Option<Seq<u8>>) -> Seq<u8> {
    match o {
        Some(b) => spec_some_text(spec_quoted_text(b)),
        None => spec_none_text(),
    }
}

/// An optional mode, as `0o` and octal digits.
pub open spec fn spec_opt_oct32_text(o: Option<u32>) -> Seq<u8> {
    match o {
        Some(m) => spec_some_text(seq![48u8, 111u8] + spec_oct(m as nat)),
        None => spec_none_text(),
    }
}

/// The bytes of an optional subtype.
pub open spec fn spec_opt_subtype_bytes(o: Option<FuseSubtype>) -> Option<Seq<u8>> {
    match o {
        Some(s) => Some(s.view_bytes()),
        None => None,
    }
}

/// The fields of the `{:#?}` rendering of mount options, by name.
pub open spec fn spec_mount_options_fields(o: MountOptions) -> Seq<(Seq<u8>, Seq<u8>)> {
    seq![
        (ascii_of("allow_other"@), spec_bool_text(o.allow_other)),
        (ascii_of("block_size"@), spec_opt_dec32_text(o.block_size)),
        (ascii_of("default_permissions"@), spec_bool_text(o.default_permissions)),
        (ascii_of("fuse_device_fd"@), spec_opt_dec32_text(o.fuse_device_fd)),
        (ascii_of("group_id"@), spec_opt_dec32_text(o.group_id)),
        (ascii_of("max_read"@), spec_opt_dec32_text(o.max_read)),
        (ascii_of("mount_source"@), spec_quoted_text(o.mount_source.view_bytes())),
        (ascii_of("mount_type"@), spec_quoted_text(o.mount_type.view_bytes())),
        (ascii_of("root_mode"@), spec_opt_oct32_text(o.root_mode)),
        (ascii_of("subtype"@), spec_opt_quoted_text(spec_opt_subtype_bytes(o.subtype))),
        (ascii_of("user_id"@), spec_opt_dec32_text(o.user_id)),
    ]
}

impl<'a> MountSource<'a> {
    /// The `{:?}` rendering: the source quoted, as a C string is shown.
    pub fn debug_string(&self) -> (r: String)
        ensures
            r@ == to_chars(spec_quoted_text(self.view_bytes())),
    {
        let t = quoted_text(self.to_bytes());
        string_from_ascii(t)
    }
}

impl<'a> MountType<'a> {
    /// The `{:?}` rendering: the name quoted, as a C string is shown.
    pub fn debug_string(&self) -> (r: String)
        ensures
            r@ == to_chars(spec_quoted_text(self.view_bytes())),
    {
        let t = quoted_text(self.to_bytes());
        string_from_ascii(t)
    }
}

impl<'a> FuseSubtype<'a> {
    /// The `{:?}` rendering: the subtype quoted, as a C string is shown.
    pub fn debug_string(&self) -> (r: String)
        ensures
            r@ == to_chars(spec_quoted_text(self.view_bytes())),
    {
        let t = quoted_text(self.to_bytes());
        string_from_ascii(t)
    }
}

/// Renders an optional subtype.
fn opt_subtype_text(o: Option<FuseSubtype>) -> (r: Vec<u8>)
    ensures
        r@ == spec_opt_quoted_text(spec_opt_subtype_bytes(o)),
        is_ascii_bytes(r@),
{
    match o {
        Some(s) => some_text(quoted_text(s.to_bytes())),
        None => none_text(),
    }
}

/// Renders an optional mode in octal.
fn opt_oct32_text(o: Option<u32>) -> (r: Vec<u8>)
    ensures
        r@ == spec_opt_oct32_text(o),
        is_ascii_bytes(r@),
{
    match o {
        Some(m) => some_text(octal_text(m as u64)),
        None => none_text(),
    }
}

impl<'a> MountOptions<'a> {
    /// The `{:#?}` rendering of the options.
    pub fn debug_string(&self) -> (r: String)
        ensures
            r@ == to_chars(spec_debug_struct(ascii_of("MountOptions"@), spec_mount_options_fields(*self))),
    {
        proof {
            reveal_strlit("MountOptions");
            reveal_strlit("allow_other");
            reveal_strlit("block_size");
            reveal_strlit("default_permissions");
            reveal_strlit("fuse_device_fd");
            reveal_strlit("group_id");
            reveal_strlit("max_read");
            reveal_strlit("mount_source");
            reveal_strlit("mount_type");
            reveal_strlit("root_mode");
            reveal_strlit("subtype");
            reveal_strlit("user_id");
        }
        let d = DebugStruct::new("MountOptions");
        let d = d.field("allow_other", bool_text(self.allow_other).as_slice());
        let d = d.field("block_size", opt_dec32_text(self.block_size).as_slice());
        let d = d.field("default_permissions", bool_text(self.default_permissions).as_slice());
        let d = d.field("fuse_device_fd", opt_dec32_text(self.fuse_device_fd).as_slice());
        let d = d.field("group_id", opt_dec32_text(self.group_id).as_slice());
        let d = d.field("max_read", opt_dec32_text(self.max_read).as_slice());
        let d = d.field("mount_source", quoted_text(self.mount_source.to_bytes()).as_slice());
        let d = d.field("mount_type", quoted_text(self.mount_type.to_bytes()).as_slice());
        let d = d.field("root_mode", opt_oct32_text(self.root_mode).as_slice());
        let d = d.field("subtype", opt_subtype_text(self.subtype).as_slice());
        let d = d.field("user_id", opt_dec32_text(self.user_id).as_slice());
        proof {
            assert(d.spec_fields() =~= spec_mount_options_fields(*self));
        }
        d.finish()
    }
}

// }}}


// mount_data {{{

/// `key` followed by `value` in decimal.
pub open spec fn spec_keyed_dec(key: Seq<u8>, value: u32) -> Seq<u8> {
    key + spec_dec(value as nat)
}

/// The entries of the mount data, in order: `fd=` first, so it is easy to
/// find, then the others ordered by key.
pub open spec fn spec_mount_entries(opts: MountOptions) -> Seq<Seq<u8>> {
    let s0: Seq<Seq<u8>> = Seq::empty();
    let s1 = match opts.fuse_device_fd {
        Some(v) => s0.push(spec_keyed_dec(seq![102u8, 100u8, 61u8], v)),
        None => s0,
    };
    let s2 = if opts.allow_other {
        s1.push(seq![97u8, 108u8, 108u8, 111u8, 119u8, 95u8, 111u8, 116u8, 104u8, 101u8, 114u8])
    } else {
        s1
    };
    let s3 = match opts.block_size {
        Some(v) => s2.push(spec_keyed_dec(seq![98u8, 108u8, 107u8, 115u8, 105u8, 122u8, 101u8, 61u8], v)),
        None => s2,
    };
    let s4 = if opts.default_permissions {
        s3.push(
            seq![
                100u8, 101u8, 102u8, 97u8, 117u8, 108u8, 116u8, 95u8, 112u8, 101u8, 114u8, 109u8,
                105u8, 115u8, 115u8, 105u8, 111u8, 110u8, 115u8
            ],
        )
    } else {
        s3
    };
    let s5 = match opts.group_id {
        Some(v) => s4.push(
            spec_keyed_dec(seq![103u8, 114u8, 111u8, 117u8, 112u8, 95u8, 105u8, 100u8, 61u8], v),
        ),
        None => s4,
    };
    let s6 = match opts.max_read {
        Some(v) => s5.push(
            spec_keyed_dec(seq![109u8, 97u8, 120u8, 95u8, 114u8, 101u8, 97u8, 100u8, 61u8], v),
        ),
        None => s5,
    };
    let s7 = match opts.root_mode {
        Some(v) => s6.push(
            seq![114u8, 111u8, 111u8, 116u8, 109u8, 111u8, 100u8, 101u8, 61u8] + spec_oct(v as nat),
        ),
        None => s6,
    };
    let s8 = match opts.subtype {
        Some(t) => s7.push(seq![115u8, 117u8, 98u8, 116u8, 121u8, 112u8, 101u8, 61u8] + t.view_bytes()),
        None => s7,
    };
    match opts.user_id {
        Some(v) => s8.push(
            spec_keyed_dec(seq![117u8, 115u8, 101u8, 114u8, 95u8, 105u8, 100u8, 61u8], v),
        ),
        None => s8,
    }
}

/// The entries joined by commas.
pub open spec fn spec_join(entries: Seq<Seq<u8>>) -> Seq<u8>
    decreases entries.len(),
{
    if entries.len() == 0 {
        Seq::empty()
    } else if entries.len() == 1 {
        entries[0]
    } else {
        spec_join(entries.drop_last()) + seq![COMMA] + entries.last()
    }
}

/// The `data` argument of `mount()` for `opts`: the entries joined by commas
/// and terminated by a `NUL`, as FUSE expects a C string.
pub open spec fn spec_mount_data(opts: MountOptions) -> Seq<u8> {
    spec_join(spec_mount_entries(opts)).push(0u8)
}

/// Appends one entry to mount data being written: a comma first unless it is
/// the first entry.
fn push_entry(out: &mut Vec<u8>, first: bool, entry: &Vec<u8>, Ghost(entries): Ghost<Seq<Seq<u8>>>)
    requires
        old(out)@ == spec_join(entries),
        first == (entries.len() == 0),
    ensures
        final(out)@ == spec_join(entries.push(entry@)),
{
    if !first {
        out.push(COMMA);
    }
    push_bytes(out, entry.as_slice());
    proof {
        let next = entries.push(entry@);
        assert(next.drop_last() =~= entries);
        assert(final(out)@ =~= spec_join(next));
    }
}

/// `key` then `value` in decimal.
fn keyed_dec(key: &[u8], value: u32) -> (r: Vec<u8>)
    ensures
        r@ == spec_keyed_dec(key@, value),
{
    let mut v: Vec<u8> = Vec::new();
    push_bytes(&mut v, key);
    push_dec(&mut v, value as u64);
    v
}

/// Writes the mount data for `opts`.
pub fn format_mount_data(opts: &MountOptions) -> (r: Vec<u8>)
    ensures
        r@ == spec_mount_data(*opts),
{
    let mut out: Vec<u8> = Vec::new();
    let ghost mut entries: Seq<Seq<u8>> = Seq::empty();
    let mut first = true;
    if let Some(v) = opts.fuse_device_fd {
        let key: [u8; 3] = [102u8, 100u8, 61u8];
        let e = keyed_dec(key.as_slice(), v);
        proof {
            assert(key@ =~= seq![102u8, 100u8, 61u8]);
        }
        push_entry(&mut out, first, &e, Ghost(entries));
        proof {
            entries = entries.push(e@);
        }
        first = false;
    }
    if opts.allow_other {
        let e: Vec<u8> = vec![97u8, 108u8, 108u8, 111u8, 119u8, 95u8, 111u8, 116u8, 104u8, 101u8, 114u8];
        proof {
            assert(e@ =~= seq![97u8, 108u8, 108u8, 111u8, 119u8, 95u8, 111u8, 116u8, 104u8, 101u8, 114u8]);
        }
        push_entry(&mut out, first, &e, Ghost(entries));
        proof {
            entries = entries.push(e@);
        }
        first = false;
    }
    if let Some(v) = opts.block_size {
        let key: [u8; 8] = [98u8, 108u8, 107u8, 115u8, 105u8, 122u8, 101u8, 61u8];
        let e = keyed_dec(key.as_slice(), v);
        proof {
            assert(key@ =~= seq![98u8, 108u8, 107u8, 115u8, 105u8, 122u8, 101u8, 61u8]);
        }
        push_entry(&mut out, first, &e, Ghost(entries));
        proof {
            entries = entries.push(e@);
        }
        first = false;
    }
    if opts.default_permissions {
        let e: Vec<u8> = vec![
            100u8, 101u8, 102u8, 97u8, 117u8, 108u8, 116u8, 95u8, 112u8, 101u8, 114u8, 109u8,
            105u8, 115u8, 115u8, 105u8, 111u8, 110u8, 115u8,
        ];
        proof {
            assert(e@ =~= seq![
                100u8, 101u8, 102u8, 97u8, 117u8, 108u8, 116u8, 95u8, 112u8, 101u8, 114u8, 109u8,
                105u8, 115u8, 115u8, 105u8, 111u8, 110u8, 115u8
            ]);
        }
        push_entry(&mut out, first, &e, Ghost(entries));
        proof {
            entries = entries.push(e@);
        }
        first = false;
    }
    if let Some(v) = opts.group_id {
        let key: [u8; 9] = [103u8, 114u8, 111u8, 117u8, 112u8, 95u8, 105u8, 100u8, 61u8];
        let e = keyed_dec(key.as_slice(), v);
        proof {
            assert(key@ =~= seq![103u8, 114u8, 111u8, 117u8, 112u8, 95u8, 105u8, 100u8, 61u8]);
        }
        push_entry(&mut out, first, &e, Ghost(entries));
        proof {
            entries = entries.push(e@);
        }
        first = false;
    }
    if let Some(v) = opts.max_read {
        let key: [u8; 9] = [109u8, 97u8, 120u8, 95u8, 114u8, 101u8, 97u8, 100u8, 61u8];
        let e = keyed_dec(key.as_slice(), v);
        proof {
            assert(key@ =~= seq![109u8, 97u8, 120u8, 95u8, 114u8, 101u8, 97u8, 100u8, 61u8]);
        }
        push_entry(&mut out, first, &e, Ghost(entries));
        proof {
            entries = entries.push(e@);
        }
        first = false;
    }
    if let Some(v) = opts.root_mode {
        let mut e: Vec<u8> = vec![114u8, 111u8, 111u8, 116u8, 109u8, 111u8, 100u8, 101u8, 61u8];
        proof {
            assert(e@ =~= seq![114u8, 111u8, 111u8, 116u8, 109u8, 111u8, 100u8, 101u8, 61u8]);
        }
        push_oct(&mut e, v as u64);
        push_entry(&mut out, first, &e, Ghost(entries));
        proof {
            entries = entries.push(e@);
        }
        first = false;
    }
    if let Some(t) = opts.subtype {
        let mut e: Vec<u8> = vec![115u8, 117u8, 98u8, 116u8, 121u8, 112u8, 101u8, 61u8];
        proof {
            assert(e@ =~= seq![115u8, 117u8, 98u8, 116u8, 121u8, 112u8, 101u8, 61u8]);
        }
        push_bytes(&mut e, t.to_bytes());
        push_entry(&mut out, first, &e, Ghost(entries));
        proof {
            entries = entries.push(e@);
        }
        first = false;
    }
    if let Some(v) = opts.user_id {
        let key: [u8; 8] = [117u8, 115u8, 101u8, 114u8, 95u8, 105u8, 100u8, 61u8];
        let e = keyed_dec(key.as_slice(), v);
        proof {
            assert(key@ =~= seq![117u8, 115u8, 101u8, 114u8, 95u8, 105u8, 100u8, 61u8]);
        }
        push_entry(&mut out, first, &e, Ghost(entries));
        proof {
            entries = entries.push(e@);
        }
    }
    proof {
        assert(entries =~= spec_mount_entries(*opts));
    }
    out.push(0u8);
    out
}

/// Writes the mount data for `options` into `storage`, and returns the part
/// written; `None` if it does not fit.
pub fn mount_data<'a>(options: &MountOptions, storage: &'a mut [u8]) -> (r: Option<&'a [u8]>)
    ensures
        r is Some <==> spec_mount_data(*options).len() <= old(storage)@.len(),
        r matches Some(s) ==> s@ == spec_mount_data(*options),
{
    let data = format_mount_data(options);
    if data.len() > storage.len() {
        return None;
    }
    let n = data.len();
    let mut i: usize = 0;
    while i < n
        invariant
            n == data@.len(),
            n <= storage@.len(),
            storage@.len() == old(storage)@.len(),
            i <= n,
            forall|j: int| 0 <= j < i ==> storage@[j] == data@[j],
        decreases n - i,
    {
        storage[i] = data[i];
        i = i + 1;
    }
    let written: &'a [u8] = storage;
    let out = &written[0..n];
    proof {
        assert(out@ =~= data@);
    }
    Some(out)
}

// }}}

} // verus!
