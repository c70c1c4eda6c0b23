//! A FUSE and CUSE server library: request parsing, reply encoding, and the
//! rules that govern a server session.

use vstd::prelude::*;

pub mod ascii;
pub mod debug;
pub mod decode;
pub mod encode;
pub mod error;
pub mod file_mode;
pub mod freebsd;
pub mod kernel;
pub mod laws;
pub mod linux;
pub mod mount_laws;
pub mod lock;
pub mod node;
pub mod node_name;
pub mod operations;
pub mod reply_laws;
pub mod request_laws;
pub mod process_id;
pub mod server;
pub mod server_async;
pub mod text;
pub mod time;
pub mod xattr;
pub mod wire;

verus! {

} // verus!
