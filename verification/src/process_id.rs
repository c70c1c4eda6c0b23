//! The process that initiated a request.

use vstd::prelude::*;

use crate::ascii::spec_dec;
use crate::debug::{dec_text, to_chars};
use crate::text::string_from_ascii;

verus! {

/// Represents a process that initiated a FUSE request; never zero.
///
/// The concept of a "process ID" is not fully specified by POSIX, and some
/// platforms may report process IDs that don't match the intuitive userland
/// meaning, such as a thread ID in place of a thread group ID.
#[derive(Clone, Copy, Debug, PartialEq, Eq, Structural, Hash, PartialOrd, Ord)]
pub struct ProcessId {
    pid: u32,
}

impl View for ProcessId {
    type V = u32;

    closed spec fn view(&self) -> u32 {
        self.pid
    }
}

impl ProcessId {
    #[verifier::type_invariant]
    spec fn nonzero(self) -> bool {
        self.pid != 0
    }

    /// The process ID `pid`, if it is not zero.
    pub fn new(pid: u32) -> (r: Option<ProcessId>)
        ensures
            r is Some <==> pid != 0,
            r matches Some(p) ==> p@ == pid,
    {
        if pid == 0 {
            None
        } else {
            Some(ProcessId { pid })
        }
    }

    /// The process ID as a primitive integer; never zero.
    pub fn get(&self) -> (r: u32)
        ensures
            r == self@,
            r != 0,
    {
        proof {
            use_type_invariant(self);
        }
        self.pid
    }
}


impl ProcessId {
    /// The `{:?}` rendering: the number in decimal.
    pub fn debug_string(&self) -> (r: String)
        ensures
            r@ == to_chars(spec_dec(self@ as nat)),
    {
        let t = dec_text(self.get() as u64);
        string_from_ascii(t)
    }
}

} // verus!
