//! RPC-style CUSE serving: each request is decoded into its operation's
//! request type and passed, with a [`Call`] to answer it, to a handler.

use vstd::prelude::*;

use crate::encode::{spec_reply, spec_reply_len};
use crate::error::{request_error_reply, spec_request_error_code, Error, RequestError, ENOSYS, EPROTO};
use crate::server::spec_reply_sent;
use crate::kernel::{
    FUSE_FLUSH,
    FUSE_FSYNC,
    FUSE_INTERRUPT,
    FUSE_IOCTL,
    FUSE_OPEN,
    FUSE_POLL,
    FUSE_READ,
    FUSE_RELEASE,
    FUSE_WRITE,
};
use crate::operations::release::{spec_parse_release_like, ReleaseRequest};
use crate::operations::write::{spec_parse_write, WriteRequest};
use crate::server::dispatch::Hooks;
use crate::server::fuse_rpc::{dispatch_outcome, spec_answered_with_error, spec_dispatch_outcome, SendResult};
use crate::server::session::CuseConnection;
use crate::server::{RecvError, ServerError, CuseLayout, CuseReply, CuseReplySender, CuseRequest, CuseSocket, SendError};

verus! {

// Call {{{

/// One call of a handler: what it needs to answer its request.
pub struct Call<'a, S> {
    socket: &'a S,
    request: CuseRequest<'a>,
    hooks: Option<&'a dyn Hooks>,
}

impl<'a, S: CuseSocket> Call<'a, S> {
    /// The request being answered.
    pub closed spec fn spec_request(self) -> CuseRequest<'a> {
        self.request
    }

    /// The socket the request came from.
    pub closed spec fn spec_socket(self) -> S {
        *self.socket
    }

    /// The ID of the request being answered.
    pub closed spec fn spec_request_id(self) -> u64 {
        self.request.inner.spec_header().unique
    }

    /// What sending the refused-reply notice for `err` does: unless the
    /// client had forgotten the request, an `EPROTO` error reply goes to the
    /// socket.
    pub open spec fn spec_rejection_answered(self, err: SendError<S::Error>) -> bool {
        !(err is NotFound) ==> exists|r2: Result<(), SendError<S::Error>>| #[trigger] self.spec_socket().spec_sent(
            spec_reply(self.spec_request_id(), (-EPROTO) as i32, Seq::empty()),
            r2,
        )
    }

    /// The header of the request being answered.
    pub fn header(&self) -> (r: crate::kernel::FuseInHeader)
        ensures
            r == self.spec_request().inner.spec_header(),
    {
        self.request.header()
    }

    /// Answers the request with `reply`. If the client refuses the reply for
    /// any reason but having forgotten the request, an error reply
    /// (`EPROTO`) follows it.
    pub fn respond_ok<R: CuseReply>(self, reply: &R) -> (r: SendResult<S::Error>)
        ensures
            spec_reply_sent(
                &self.spec_socket(),
                self.spec_request_id(),
                reply.spec_payload(),
                spec_reply_len(reply.spec_payload().len() as int, 0, 0, 0),
                r.error,
            ),
            r.error matches Err(e) ==> self.spec_rejection_answered(e),
    {
        let request_id = self.request.id();
        let sender = CuseReplySender::new(self.socket, self.request.layout, request_id);
        let error = reply.send_to(sender);
        if let Err(ref err) = error {
            self.response_rejected(err);
        }
        SendResult { error }
    }

    /// Answers the request with the error `error`.
    pub fn respond_err(self, error: Error) -> (r: SendResult<S::Error>)
        ensures
            self.spec_socket().spec_sent(spec_reply(self.spec_request_id(), error.spec_code(), Seq::empty()), r.error),
    {
        let request_id = self.request.id();
        let sender = CuseReplySender::new(self.socket, self.request.layout, request_id);
        SendResult { error: sender.err(error) }
    }

    /// Follows a refused reply with an `EPROTO` error reply, unless the
    /// client had forgotten the request.
    pub fn response_rejected(&self, err: &SendError<S::Error>)
        ensures
            self.spec_rejection_answered(*err),
    {
        if let SendError::NotFound(_) = err {
            return;
        }
        let request_id = self.request.id();
        let sender = CuseReplySender::new(self.socket, self.request.layout, request_id);
        let sent = sender.err(Error::protocol_error());
        proof {
            assert(self.spec_socket().spec_sent(
                spec_reply(self.spec_request_id(), (-EPROTO) as i32, Seq::empty()),
                sent,
            ));
        }
    }

    /// Answers the request as unimplemented (`ENOSYS`), after telling the
    /// hooks.
    pub fn unimplemented(self) -> (r: SendResult<S::Error>)
        ensures
            self.spec_socket().spec_sent(spec_reply(self.spec_request_id(), (-ENOSYS) as i32, Seq::empty()), r.error),
    {
        if let Some(hooks) = self.hooks {
            hooks.unimplemented(self.request.header());
        }
        self.respond_err(Error::unimplemented())
    }
}

// }}}

// Handlers {{{

/// RPC-style handlers for CUSE operations. Each handler that is not
/// overridden answers its request as unimplemented.
pub trait Handlers<S: CuseSocket> {
    /// Handles `FUSE_RELEASE`.
    fn release(&self, call: Call<'_, S>, request: &ReleaseRequest) -> SendResult<S::Error> {
        let _ = request;
        call.unimplemented()
    }

    /// Handles `FUSE_WRITE`.
    fn write(&self, call: Call<'_, S>, request: &WriteRequest<'_>) -> SendResult<S::Error> {
        let _ = request;
        call.unimplemented()
    }
}

// }}}

// Dispatcher {{{

/// Whether `r` is what a dispatcher on `socket` reports for `request`: a
/// request that expects no reply is answered with nothing; one without a
/// handler, or with an unknown opcode, is answered as unimplemented
/// (`ENOSYS`); one that fails to decode as its request type is answered
/// with the error [`request_error_reply`] chooses; otherwise its handler's
/// outcome is reported, never as `NotFound`. A reply to a forgotten request
/// is no error.
pub open spec fn spec_rpc_dispatched<S: CuseSocket>(
    socket: S,
    request: CuseRequest,
    r: Result<(), SendError<S::Error>>,
) -> bool {
    let h = request.inner.spec_header();
    let b = request.inner.spec_bytes();
    let minor = request.layout.spec_version_minor();
    let route = spec_rpc_route(h.opcode);
    if route is NoReply {
        r is Ok
    } else if route is Unimplemented || route is Unknown {
        spec_answered_with_error(socket, h.unique, (-ENOSYS) as i32, r)
    } else if route is Release {
        match spec_parse_release_like(h, b, FUSE_RELEASE, minor, true) {
            Err(e) => spec_answered_with_error(socket, h.unique, spec_request_error_code(e) as i32, r),
            Ok(_) => !(r matches Err(SendError::NotFound(_))),
        }
    } else {
        match spec_parse_write(h, b, minor, true) {
            Err(e) => spec_answered_with_error(socket, h.unique, spec_request_error_code(e) as i32, r),
            Ok(_) => !(r matches Err(SendError::NotFound(_))),
        }
    }
}

/// How a CUSE dispatcher treats a request with a given opcode.
#[derive(Clone, Copy, Debug, PartialEq, Eq, Structural)]
pub enum RpcRoute {
    /// Decoded as `ReleaseRequest` and passed to [`Handlers::release`].
    Release,
    /// Decoded as `WriteRequest` and passed to [`Handlers::write`].
    Write,
    /// A known operation with no handler here: answered as unimplemented.
    Unimplemented,
    /// A request that expects no reply: dropped.
    NoReply,
    /// An unknown opcode: answered as unimplemented, after telling the hooks.
    Unknown,
}

/// How a CUSE dispatcher treats a request with opcode `opcode`.
pub open spec fn spec_rpc_route(opcode: u32) -> RpcRoute {
    if opcode == FUSE_RELEASE {
        RpcRoute::Release
    } else if opcode == FUSE_WRITE {
        RpcRoute::Write
    } else if opcode == FUSE_FLUSH || opcode == FUSE_FSYNC || opcode == FUSE_IOCTL || opcode
        == FUSE_OPEN || opcode == FUSE_POLL || opcode == FUSE_READ {
        RpcRoute::Unimplemented
    } else if opcode == FUSE_INTERRUPT {
        RpcRoute::NoReply
    } else {
        RpcRoute::Unknown
    }
}

/// Chooses how a CUSE dispatcher treats a request with opcode `opcode`.
pub fn rpc_route(opcode: u32) -> (r: RpcRoute)
    ensures
        r == spec_rpc_route(opcode),
{
    if opcode == FUSE_RELEASE {
        RpcRoute::Release
    } else if opcode == FUSE_WRITE {
        RpcRoute::Write
    } else if opcode == FUSE_FLUSH || opcode == FUSE_FSYNC || opcode == FUSE_IOCTL || opcode
        == FUSE_OPEN || opcode == FUSE_POLL || opcode == FUSE_READ {
        RpcRoute::Unimplemented
    } else if opcode == FUSE_INTERRUPT {
        RpcRoute::NoReply
    } else {
        RpcRoute::Unknown
    }
}

/// Passes CUSE requests to RPC-style handlers.
pub struct Dispatcher<'a, S, H> {
    socket: &'a S,
    handlers: &'a H,
    layout: CuseLayout,
    hooks: Option<&'a dyn Hooks>,
}

impl<'a, S, H> Dispatcher<'a, S, H> {
    /// Whether hooks are set.
    pub closed spec fn spec_has_hooks(self) -> bool {
        self.hooks is Some
    }

    /// The socket replies go to.
    pub closed spec fn spec_socket(self) -> S {
        *self.socket
    }

    /// The layout of the session.
    pub closed spec fn spec_layout(self) -> CuseLayout {
        self.layout
    }

    /// A dispatcher for the connection `conn`.
    pub fn new(conn: &'a CuseConnection<S>, handlers: &'a H) -> (r: Dispatcher<'a, S, H>)
        ensures
            !r.spec_has_hooks(),
            r.spec_socket() == conn.spec_socket(),
            r.spec_layout() == conn.spec_layout(),
    {
        Dispatcher { socket: conn.socket(), handlers, layout: conn.layout(), hooks: None }
    }

    /// A dispatcher that answers on `socket` for a session with `layout`.
    pub fn from_socket(socket: &'a S, handlers: &'a H, layout: CuseLayout) -> (r: Dispatcher<'a, S, H>)
        ensures
            !r.spec_has_hooks(),
            r.spec_socket() == *socket,
            r.spec_layout() == layout,
    {
        Dispatcher { socket, handlers, layout, hooks: None }
    }

    /// Sets hooks that observe dispatch events.
    pub fn set_hooks(&mut self, hooks: &'a dyn Hooks)
        ensures
            final(self).spec_has_hooks(),
            final(self).spec_socket() == old(self).spec_socket(),
            final(self).spec_layout() == old(self).spec_layout(),
    {
        self.hooks = Some(hooks);
    }
}

impl<'a, S: CuseSocket, H: Handlers<S>> Dispatcher<'a, S, H> {
    /// Answers a request that could not be decoded with the error
    /// [`request_error_reply`] chooses, after telling the hooks.
    fn on_request_error<'r>(&'r self, request: CuseRequest<'r>, err: RequestError) -> (r: Result<(), SendError<S::Error>>)
        ensures
            self.spec_socket().spec_sent(
                spec_reply(request.inner.spec_header().unique, spec_request_error_code(err) as i32, Seq::empty()),
                r,
            ),
    {
        if let Some(hooks) = self.hooks {
            hooks.request_error(request.header(), err);
        }
        let sender = CuseReplySender::new(self.socket, self.layout, request.id());
        sender.err(request_error_reply(err))
    }

    /// Answers a request with an unknown opcode as unimplemented, after
    /// telling the hooks.
    fn on_request_unknown<'r>(&'r self, request: CuseRequest<'r>) -> (r: Result<(), SendError<S::Error>>)
        ensures
            self.spec_socket().spec_sent(
                spec_reply(request.inner.spec_header().unique, (-ENOSYS) as i32, Seq::empty()),
                r,
            ),
    {
        if let Some(hooks) = self.hooks {
            hooks.unknown_opcode(request.header());
        }
        let sender = CuseReplySender::new(self.socket, self.layout, request.id());
        sender.err(Error::unimplemented())
    }

    /// Handles one request: decodes it as its opcode's request type and
    /// passes it to that handler. A request that fails to decode is answered
    /// with an error; a reply to a forgotten request is no error.
    pub fn dispatch<'r>(&'r self, request: CuseRequest<'r>) -> (r: Result<(), SendError<S::Error>>)
        ensures
            !(r matches Err(SendError::NotFound(_))),
            spec_rpc_route(request.inner.spec_header().opcode) == RpcRoute::NoReply ==> r is Ok,
            spec_rpc_dispatched(self.spec_socket(), request, r),
    {
        if let Some(hooks) = self.hooks {
            hooks.request(request.header());
        }
        let call = Call { socket: self.socket, request, hooks: self.hooks };
        let result = match rpc_route(request.header().opcode) {
            RpcRoute::Release => match ReleaseRequest::from_cuse_request(&request) {
                Ok(req) => self.handlers.release(call, &req).error,
                Err(err) => self.on_request_error(request, err),
            },
            RpcRoute::Write => match WriteRequest::from_cuse_request(&request) {
                Ok(req) => self.handlers.write(call, &req).error,
                Err(err) => self.on_request_error(request, err),
            },
            RpcRoute::Unimplemented => {
                let sent = call.unimplemented().error;
                proof {
                    assert(self.spec_socket().spec_sent(
                        spec_reply(request.inner.spec_header().unique, (-ENOSYS) as i32, Seq::empty()),
                        sent,
                    ));
                }
                sent
            },
            RpcRoute::NoReply => Ok(()),
            RpcRoute::Unknown => self.on_request_unknown(request),
        };
        let r = dispatch_outcome(result);
        proof {
            if spec_rpc_route(request.inner.spec_header().opcode) is Unimplemented || spec_rpc_route(request.inner.spec_header().opcode) is Unknown {
                assert(self.spec_socket().spec_sent(
                    spec_reply(request.inner.spec_header().unique, (-ENOSYS) as i32, Seq::empty()),
                    result,
                ));
            }
        }
        r
    }
}

/// What one serving step of a session at `layout` answering on `socket`
/// gives when its receive left `buf` with the outcome `recv`: a
/// socket error or a malformed request as an error, and otherwise the
/// outcome of dispatching the request read from the buffer, as
/// [`spec_rpc_dispatched`] says, a failed send as an error.
pub open spec fn spec_rpc_serve_step<S: CuseSocket>(
    socket: S,
    layout: CuseLayout,
    buf: Seq<u8>,
    recv: Result<usize, RecvError<S::Error>>,
    r: Result<(), ServerError<S::Error>>,
) -> bool {
    match recv {
        Err(e) => r == Err::<(), ServerError<S::Error>>(ServerError::RecvError(e)),
        Ok(n) => {
            let len = crate::server::session::spec_received_len(n, buf.len() as usize);
            match crate::decode::spec_check_request(buf.subrange(0, len as int)) {
                Ok(()) => exists|req: CuseRequest<'static>, d: Result<(), SendError<S::Error>>|
                    {
                        &&& req.layout == layout
                        &&& req.inner.spec_header() == crate::kernel::FuseInHeader::spec_parse(
                            buf.subrange(0, len as int),
                        )
                        &&& req.inner.spec_bytes() == buf.subrange(0, req.inner.spec_header().len as int)
                        &&& #[trigger] spec_rpc_dispatched(socket, req, d)
                        &&& match d {
                            Ok(()) => r == Ok::<(), ServerError<S::Error>>(()),
                            Err(e) => r == Err::<(), ServerError<S::Error>>(ServerError::SendError(e)),
                        }
                    },
                Err(e) => r == Err::<(), ServerError<S::Error>>(ServerError::RequestError(e)),
            }
        },
    }
}

/// One step of serving: receives a request into `buf` and dispatches it.
pub fn serve_one<S: CuseSocket, H: Handlers<S>>(
    conn: &CuseConnection<S>,
    dispatcher: &Dispatcher<'_, S, H>,
    buf: &mut [u8],
) -> (r: Result<(), crate::server::ServerError<S::Error>>)
    ensures
        exists|recv: Result<usize, RecvError<S::Error>>|
            #[trigger] conn.spec_socket().spec_received(final(buf)@, recv) && spec_rpc_serve_step(
                dispatcher.spec_socket(),
                conn.spec_layout(),
                final(buf)@,
                recv,
                r,
            ),
        r is Ok ==> exists|h: crate::kernel::FuseInHeader, bytes: Seq<u8>|
            crate::server::session::spec_request_in(final(buf)@, h, bytes),
        r matches Err(crate::server::ServerError::RequestError(e))
            ==> crate::server::session::spec_request_error_in(final(buf)@, e),
        !(r matches Err(crate::server::ServerError::SendError(SendError::NotFound(_)))),
{
    let received = conn.recv(buf);
    let ghost got = received;
    let r = match received {
        Err(e) => Err(e),
        Ok(request) => {
            let d = dispatcher.dispatch(request);
            proof {
                assert(spec_rpc_dispatched(dispatcher.spec_socket(), request, d));
            }
            match d {
                Ok(()) => Ok(()),
                Err(e) => Err(crate::server::ServerError::SendError(e)),
            }
        },
    };
    proof {
        let w = choose|recv: Result<usize, RecvError<S::Error>>|
            #[trigger] conn.spec_socket().spec_received(final(buf)@, recv)
                && crate::server::session::spec_cuse_received(conn.spec_layout(), final(buf)@, recv, got);
        assert(spec_rpc_serve_step(dispatcher.spec_socket(), conn.spec_layout(), final(buf)@, w, r));
    }
    r
}

// }}}

} // verus!
