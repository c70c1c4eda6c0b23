//! The request and response types of each operation.

pub mod bmap;
pub mod cuse_init;
pub mod fuse_init;
pub mod readdirplus;
pub mod readlink;
pub mod removexattr;
pub mod release;
pub mod releasedir;
pub mod rename;
pub mod rmdir;
pub mod setattr;
pub mod setlk;
pub mod setxattr;
pub mod statfs;
pub mod symlink;
pub mod syncfs;
pub mod unlink;
pub mod write;
