//! File modes: a file's type and permission bits, as in `st_mode`.

use vstd::prelude::*;

verus! {

/// The bits of a mode that give the file type.
pub const S_IFMT: u32 = 0o170000;

/// The bits of a mode that give the permissions, set-ID bits and sticky bit.
pub const PERMISSIONS_MASK: u32 = 0o7777;

/// The type of a file, as encoded in the `S_IFMT` bits of its mode.
#[derive(Clone, Copy, Debug, PartialEq, Eq, Structural)]
pub enum FileType {
    NamedPipe,
    CharacterDevice,
    Directory,
    BlockDevice,
    Regular,
    Symlink,
    Socket,
}

/// The file type a mode's `S_IFMT` bits name, if any.
pub open spec fn spec_file_type(mode: u32) -> Option<FileType> {
    let t = mode & S_IFMT;
    if t == 0o010000 {
        Some(FileType::NamedPipe)
    } else if t == 0o020000 {
        Some(FileType::CharacterDevice)
    } else if t == 0o040000 {
        Some(FileType::Directory)
    } else if t == 0o060000 {
        Some(FileType::BlockDevice)
    } else if t == 0o100000 {
        Some(FileType::Regular)
    } else if t == 0o120000 {
        Some(FileType::Symlink)
    } else if t == 0o140000 {
        Some(FileType::Socket)
    } else {
        None
    }
}

impl FileType {
    /// The file type named by the `S_IFMT` bits of `mode`, if any.
    pub fn from_mode(mode: FileMode) -> (r: Option<FileType>)
        ensures
            r == spec_file_type(mode@),
    {
        let t = mode.mode & S_IFMT;
        if t == 0o010000 {
            Some(FileType::NamedPipe)
        } else if t == 0o020000 {
            Some(FileType::CharacterDevice)
        } else if t == 0o040000 {
            Some(FileType::Directory)
        } else if t == 0o060000 {
            Some(FileType::BlockDevice)
        } else if t == 0o100000 {
            Some(FileType::Regular)
        } else if t == 0o120000 {
            Some(FileType::Symlink)
        } else if t == 0o140000 {
            Some(FileType::Socket)
        } else {
            None
        }
    }
}

/// A file mode (`st_mode`).
#[derive(Clone, Copy, Debug, PartialEq, Eq, Structural)]
pub struct FileMode {
    mode: u32,
}

impl View for FileMode {
    type V = u32;

    closed spec fn view(&self) -> u32 {
        self.mode
    }
}

impl FileMode {
    /// The mode with raw value `mode`.
    pub fn new(mode: u32) -> (r: FileMode)
        ensures
            r@ == mode,
    {
        FileMode { mode }
    }

    /// The raw mode.
    pub fn get(&self) -> (r: u32)
        ensures
            r == self@,
    {
        self.mode
    }

    /// The permission bits, with the set-ID and sticky bits.
    pub fn permissions(&self) -> (r: u32)
        ensures
            r == self@ & PERMISSIONS_MASK,
    {
        self.mode & PERMISSIONS_MASK
    }
}

} // verus!
