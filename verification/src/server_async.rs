//! Connections for servers whose sockets are asynchronous. The handshake
//! and receive steps await on the socket, so they are driven by the caller;
//! what they decide is done by [`crate::server::session`].

use vstd::prelude::*;

use crate::server::{CuseLayout, FuseLayout};

verus! {

/// An active connection to a CUSE client over an asynchronous socket.
pub struct CuseConnection<S> {
    socket: S,
    layout: CuseLayout,
}

impl<S> CuseConnection<S> {
    /// The session layout.
    pub closed spec fn spec_layout(self) -> CuseLayout {
        self.layout
    }

    /// The socket of this connection.
    pub closed spec fn spec_socket(self) -> S {
        self.socket
    }

    /// A connection over `socket` for a session with `layout`, as an accepted
    /// handshake leaves it.
    pub fn from_parts(socket: S, layout: CuseLayout) -> (r: CuseConnection<S>)
        ensures
            r.spec_layout() == layout,
            r.spec_socket() == socket,
    {
        CuseConnection { socket, layout }
    }

    /// The socket of this connection.
    pub fn socket(&self) -> (r: &S)
        ensures
            *r == self.spec_socket(),
    {
        &self.socket
    }

    /// The layout requests of this session are decoded with.
    pub fn request_options(&self) -> (r: CuseLayout)
        ensures
            r == self.spec_layout(),
    {
        self.layout
    }

    /// The layout replies of this session are encoded with.
    pub fn response_options(&self) -> (r: CuseLayout)
        ensures
            r == self.spec_layout(),
    {
        self.layout
    }
}

/// An active connection to a FUSE client over an asynchronous socket.
pub struct FuseConnection<S> {
    socket: S,
    layout: FuseLayout,
}

impl<S> FuseConnection<S> {
    /// The session layout.
    pub closed spec fn spec_layout(self) -> FuseLayout {
        self.layout
    }

    /// The socket of this connection.
    pub closed spec fn spec_socket(self) -> S {
        self.socket
    }

    /// A connection over `socket` for a session with `layout`, as an accepted
    /// handshake leaves it.
    pub fn from_parts(socket: S, layout: FuseLayout) -> (r: FuseConnection<S>)
        ensures
            r.spec_layout() == layout,
            r.spec_socket() == socket,
    {
        FuseConnection { socket, layout }
    }

    /// The socket of this connection.
    pub fn socket(&self) -> (r: &S)
        ensures
            *r == self.spec_socket(),
    {
        &self.socket
    }

    /// The layout requests of this session are decoded with.
    pub fn request_options(&self) -> (r: FuseLayout)
        ensures
            r == self.spec_layout(),
    {
        self.layout
    }

    /// The layout replies of this session are encoded with.
    pub fn response_options(&self) -> (r: FuseLayout)
        ensures
            r == self.spec_layout(),
    {
        self.layout
    }
}

} // verus!
