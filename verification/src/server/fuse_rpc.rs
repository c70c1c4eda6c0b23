//! RPC-style FUSE serving: each request is decoded into its operation's
//! request type and passed, with a [`Call`] to answer it, to a handler.

use vstd::prelude::*;

use crate::encode::{spec_reply, spec_reply_len};
use crate::error::{request_error_reply, spec_request_error_code, Error, RequestError, ENOSYS, EPROTO};
use crate::server::spec_reply_sent;
use crate::kernel::{
    FUSE_ACCESS,
    FUSE_BATCH_FORGET,
    FUSE_BMAP,
    FUSE_COPY_FILE_RANGE,
    FUSE_CREATE,
    FUSE_DESTROY,
    FUSE_FALLOCATE,
    FUSE_FLUSH,
    FUSE_FORGET,
    FUSE_FSYNC,
    FUSE_FSYNCDIR,
    FUSE_GETATTR,
    FUSE_GETLK,
    FUSE_GETXATTR,
    FUSE_INTERRUPT,
    FUSE_IOCTL,
    FUSE_LINK,
    FUSE_LISTXATTR,
    FUSE_LOOKUP,
    FUSE_LSEEK,
    FUSE_MKDIR,
    FUSE_MKNOD,
    FUSE_OPEN,
    FUSE_OPENDIR,
    FUSE_POLL,
    FUSE_READ,
    FUSE_READDIR,
    FUSE_READDIRPLUS,
    FUSE_READLINK,
    FUSE_RELEASE,
    FUSE_RELEASEDIR,
    FUSE_REMOVEXATTR,
    FUSE_RENAME,
    FUSE_RENAME2,
    FUSE_RMDIR,
    FUSE_SETATTR,
    FUSE_SETLK,
    FUSE_SETLKW,
    FUSE_SETXATTR,
    FUSE_STATFS,
    FUSE_SYMLINK,
    FUSE_SYNCFS,
    FUSE_UNLINK,
    FUSE_WRITE,
};
use crate::operations::bmap::{spec_parse_bmap, BmapRequest};
use crate::operations::readdirplus::{spec_parse_readdirplus, ReaddirplusRequest};
use crate::operations::readlink::{spec_parse_readlink, ReadlinkRequest};
use crate::operations::release::{spec_parse_release_like, ReleaseRequest};
use crate::operations::releasedir::ReleasedirRequest;
use crate::operations::removexattr::{spec_parse_removexattr, RemovexattrRequest};
use crate::operations::rename::{spec_parse_rename, RenameRequest};
use crate::operations::rmdir::{spec_parse_rmdir, RmdirRequest};
use crate::operations::setattr::{spec_parse_setattr, SetattrRequest};
use crate::operations::setlk::{spec_parse_setlk, SetlkRequest};
use crate::operations::setxattr::{spec_parse_setxattr, SetxattrRequest};
use crate::operations::statfs::{spec_parse_statfs, StatfsRequest};
use crate::operations::symlink::{spec_parse_symlink, SymlinkRequest};
use crate::operations::syncfs::{spec_parse_syncfs, SyncfsRequest};
use crate::operations::unlink::{spec_parse_unlink, UnlinkRequest};
use crate::operations::write::{spec_parse_write, WriteRequest};
use crate::server::dispatch::Hooks;
use crate::server::session::FuseConnection;
use crate::server::{RecvError, ServerError, FuseLayout, FuseReply, FuseReplySender, FuseRequest, FuseSocket, SendError, Socket};

verus! {

// SendResult {{{

/// The result of sending a reply: whether the client took it.
pub struct SendResult<E> {
    pub error: Result<(), SendError<E>>,
}

impl<E> SendResult<E> {
    /// Whether the reply was sent.
    pub fn is_ok(&self) -> (r: bool)
        ensures
            r == self.error is Ok,
    {
        self.error.is_ok()
    }

    /// Whether the reply was refused.
    pub fn is_err(&self) -> (r: bool)
        ensures
            r == self.error is Err,
    {
        self.error.is_err()
    }

    /// The error the reply was refused with, if it was.
    pub fn err(&self) -> (r: Option<&SendError<E>>)
        ensures
            match self.error {
                Ok(_) => r is None,
                Err(e) => r == Some(&e),
            },
    {
        match &self.error {
            Ok(_) => None,
            Err(e) => Some(e),
        }
    }
}

/// What a dispatcher reports for the outcome of answering a request: a reply
/// to a request the client has forgotten is no error.
pub open spec fn spec_dispatch_outcome<E>(result: Result<(), SendError<E>>) -> Result<(), SendError<E>> {
    match result {
        Err(SendError::NotFound(_)) => Ok(()),
        _ => result,
    }
}

/// Maps the outcome of answering a request to what a dispatcher reports.
pub fn dispatch_outcome<E>(result: Result<(), SendError<E>>) -> (r: Result<(), SendError<E>>)
    ensures
        r == spec_dispatch_outcome(result),
{
    match result {
        Err(SendError::NotFound(_)) => Ok(()),
        _ => result,
    }
}

// }}}

// Call {{{

/// One call of a handler: what it needs to answer its request.
pub struct Call<'a, S> {
    socket: &'a S,
    request: FuseRequest<'a>,
    hooks: Option<&'a dyn Hooks>,
}

impl<'a, S: FuseSocket> Call<'a, S> {
    /// The request being answered.
    pub closed spec fn spec_request(self) -> FuseRequest<'a> {
        self.request
    }

    /// The socket the request came from.
    pub closed spec fn spec_socket(self) -> S {
        *self.socket
    }

    /// The ID of the request being answered.
    pub closed spec fn spec_request_id(self) -> u64 {
        self.request.inner.spec_header().unique
    }

    /// What sending the refused-reply notice for `err` does: unless the
    /// client had forgotten the request, an `EPROTO` error reply goes to the
    /// socket.
    pub open spec fn spec_rejection_answered(self, err: SendError<S::Error>) -> bool {
        !(err is NotFound) ==> exists|r2: Result<(), SendError<S::Error>>| #[trigger] self.spec_socket().spec_sent(
            spec_reply(self.spec_request_id(), (-EPROTO) as i32, Seq::empty()),
            r2,
        )
    }

    /// The header of the request being answered.
    pub fn header(&self) -> (r: crate::kernel::FuseInHeader)
        ensures
            r == self.spec_request().inner.spec_header(),
    {
        self.request.header()
    }

    /// Answers the request with `reply`. If the client refuses the reply for
    /// any reason but having forgotten the request, an error reply
    /// (`EPROTO`) follows it.
    pub fn respond_ok<R: FuseReply>(self, reply: &R) -> (r: SendResult<S::Error>)
        ensures
            spec_reply_sent(
                &self.spec_socket(),
                self.spec_request_id(),
                reply.spec_payload(self.spec_request().layout),
                spec_reply_len(reply.spec_payload(self.spec_request().layout).len() as int, 0, 0, 0),
                r.error,
            ),
            r.error matches Err(e) ==> self.spec_rejection_answered(e),
    {
        let request_id = self.request.id();
        let sender = FuseReplySender::new(self.socket, self.request.layout, request_id);
        let error = reply.send_to(sender);
        if let Err(ref err) = error {
            self.response_rejected(err);
        }
        SendResult { error }
    }

    /// Answers the request with the error `error`.
    pub fn respond_err(self, error: Error) -> (r: SendResult<S::Error>)
        ensures
            self.spec_socket().spec_sent(spec_reply(self.spec_request_id(), error.spec_code(), Seq::empty()), r.error),
    {
        let request_id = self.request.id();
        let sender = FuseReplySender::new(self.socket, self.request.layout, request_id);
        SendResult { error: sender.err(error) }
    }

    /// Follows a refused reply with an `EPROTO` error reply, unless the
    /// client had forgotten the request.
    pub fn response_rejected(&self, err: &SendError<S::Error>)
        ensures
            self.spec_rejection_answered(*err),
    {
        if let SendError::NotFound(_) = err {
            return;
        }
        let request_id = self.request.id();
        let sender = FuseReplySender::new(self.socket, self.request.layout, request_id);
        let sent = sender.err(Error::protocol_error());
        proof {
            assert(self.spec_socket().spec_sent(
                spec_reply(self.spec_request_id(), (-EPROTO) as i32, Seq::empty()),
                sent,
            ));
        }
    }

    /// Answers the request as unimplemented (`ENOSYS`), after telling the
    /// hooks.
    pub fn unimplemented(self) -> (r: SendResult<S::Error>)
        ensures
            self.spec_socket().spec_sent(spec_reply(self.spec_request_id(), (-ENOSYS) as i32, Seq::empty()), r.error),
    {
        if let Some(hooks) = self.hooks {
            hooks.unimplemented(self.request.header());
        }
        self.respond_err(Error::unimplemented())
    }
}

// }}}

// Handlers {{{

/// RPC-style handlers for FUSE operations. Each handler that is not
/// overridden answers its request as unimplemented.
pub trait Handlers<S: FuseSocket> {
    /// Handles `FUSE_BMAP`.
    fn bmap(&self, call: Call<'_, S>, request: &BmapRequest) -> SendResult<S::Error> {
        let _ = request;
        call.unimplemented()
    }

    /// Handles `FUSE_READDIRPLUS`.
    fn readdirplus(&self, call: Call<'_, S>, request: &ReaddirplusRequest) -> SendResult<S::Error> {
        let _ = request;
        call.unimplemented()
    }

    /// Handles `FUSE_READLINK`.
    fn readlink(&self, call: Call<'_, S>, request: &ReadlinkRequest) -> SendResult<S::Error> {
        let _ = request;
        call.unimplemented()
    }

    /// Handles `FUSE_RELEASE`.
    fn release(&self, call: Call<'_, S>, request: &ReleaseRequest) -> SendResult<S::Error> {
        let _ = request;
        call.unimplemented()
    }

    /// Handles `FUSE_RELEASEDIR`.
    fn releasedir(&self, call: Call<'_, S>, request: &ReleasedirRequest) -> SendResult<S::Error> {
        let _ = request;
        call.unimplemented()
    }

    /// Handles `FUSE_REMOVEXATTR`.
    fn removexattr(&self, call: Call<'_, S>, request: &RemovexattrRequest<'_>) -> SendResult<S::Error> {
        let _ = request;
        call.unimplemented()
    }

    /// Handles `FUSE_RENAME` and `FUSE_RENAME2`.
    fn rename(&self, call: Call<'_, S>, request: &RenameRequest<'_>) -> SendResult<S::Error> {
        let _ = request;
        call.unimplemented()
    }

    /// Handles `FUSE_RMDIR`.
    fn rmdir(&self, call: Call<'_, S>, request: &RmdirRequest<'_>) -> SendResult<S::Error> {
        let _ = request;
        call.unimplemented()
    }

    /// Handles `FUSE_SETATTR`.
    fn setattr(&self, call: Call<'_, S>, request: &SetattrRequest) -> SendResult<S::Error> {
        let _ = request;
        call.unimplemented()
    }

    /// Handles `FUSE_SETLK` and `FUSE_SETLKW`.
    fn setlk(&self, call: Call<'_, S>, request: &SetlkRequest) -> SendResult<S::Error> {
        let _ = request;
        call.unimplemented()
    }

    /// Handles `FUSE_SETXATTR`.
    fn setxattr(&self, call: Call<'_, S>, request: &SetxattrRequest<'_>) -> SendResult<S::Error> {
        let _ = request;
        call.unimplemented()
    }

    /// Handles `FUSE_STATFS`.
    fn statfs(&self, call: Call<'_, S>, request: &StatfsRequest) -> SendResult<S::Error> {
        let _ = request;
        call.unimplemented()
    }

    /// Handles `FUSE_SYMLINK`.
    fn symlink(&self, call: Call<'_, S>, request: &SymlinkRequest<'_>) -> SendResult<S::Error> {
        let _ = request;
        call.unimplemented()
    }

    /// Handles `FUSE_SYNCFS`.
    fn syncfs(&self, call: Call<'_, S>, request: &SyncfsRequest) -> SendResult<S::Error> {
        let _ = request;
        call.unimplemented()
    }

    /// Handles `FUSE_UNLINK`.
    fn unlink(&self, call: Call<'_, S>, request: &UnlinkRequest<'_>) -> SendResult<S::Error> {
        let _ = request;
        call.unimplemented()
    }

    /// Handles `FUSE_WRITE`.
    fn write(&self, call: Call<'_, S>, request: &WriteRequest<'_>) -> SendResult<S::Error> {
        let _ = request;
        call.unimplemented()
    }
}

// }}}

// Dispatcher {{{

/// Whether `r` is what a dispatcher reports after answering request
/// `unique` on `socket` with an error reply carrying `code`: the outcome of
/// that one send, a forgotten request being no error.
pub open spec fn spec_answered_with_error<S: Socket>(
    socket: S,
    unique: u64,
    code: i32,
    r: Result<(), SendError<S::Error>>,
) -> bool {
    exists|r1: Result<(), SendError<S::Error>>|
        #[trigger] socket.spec_sent(spec_reply(unique, code, Seq::empty()), r1) && r == spec_dispatch_outcome(r1)
}

/// The error of a decoding outcome, if it failed.
pub open spec fn spec_decode_error<T>(r: Result<T, RequestError>) -> Option<RequestError> {
    match r {
        Ok(_) => None,
        Err(e) => Some(e),
    }
}

/// The error with which decoding `request` as the request type of `route`
/// fails, if it does.
pub open spec fn spec_rpc_decode_error(route: RpcRoute, request: FuseRequest) -> Option<RequestError> {
    let h = request.inner.spec_header();
    let b = request.inner.spec_bytes();
    let minor = request.layout.spec_version_minor();
    match route {
        RpcRoute::Bmap => spec_decode_error(spec_parse_bmap(h, b)),
        RpcRoute::Readdirplus => spec_decode_error(spec_parse_readdirplus(h, b, minor)),
        RpcRoute::Readlink => spec_decode_error(spec_parse_readlink(h)),
        RpcRoute::Release => spec_decode_error(spec_parse_release_like(h, b, FUSE_RELEASE, minor, false)),
        RpcRoute::Releasedir => spec_decode_error(spec_parse_release_like(h, b, FUSE_RELEASEDIR, minor, false)),
        RpcRoute::Removexattr => spec_decode_error(spec_parse_removexattr(h, b)),
        RpcRoute::Rename => spec_decode_error(spec_parse_rename(h, b)),
        RpcRoute::Rmdir => spec_decode_error(spec_parse_rmdir(h, b)),
        RpcRoute::Setattr => spec_decode_error(spec_parse_setattr(h, b)),
        RpcRoute::Setlk => spec_decode_error(spec_parse_setlk(h, b)),
        RpcRoute::Setxattr => spec_decode_error(spec_parse_setxattr(h, b, request.layout.spec_setxattr_ext())),
        RpcRoute::Statfs => spec_decode_error(spec_parse_statfs(h)),
        RpcRoute::Symlink => spec_decode_error(spec_parse_symlink(h, b)),
        RpcRoute::Syncfs => spec_decode_error(spec_parse_syncfs(h, b)),
        RpcRoute::Unlink => spec_decode_error(spec_parse_unlink(h, b)),
        RpcRoute::Write => spec_decode_error(spec_parse_write(h, b, minor, false)),
        _ => None,
    }
}

/// Whether `r` is what a dispatcher on `socket` reports for `request`: a
/// request that expects no reply is answered with nothing; one without a
/// handler, or with an unknown opcode, is answered as unimplemented
/// (`ENOSYS`); one that fails to decode as its request type is answered
/// with the error [`request_error_reply`] chooses; otherwise its handler's
/// outcome is reported, never as `NotFound`. A reply to a forgotten request
/// is no error.
pub open spec fn spec_rpc_dispatched<S: FuseSocket>(
    socket: S,
    request: FuseRequest,
    r: Result<(), SendError<S::Error>>,
) -> bool {
    let route = spec_rpc_route(request.inner.spec_header().opcode);
    let id = request.inner.spec_header().unique;
    if route is NoReply {
        r is Ok
    } else if route is Unimplemented || route is Unknown {
        spec_answered_with_error(socket, id, (-ENOSYS) as i32, r)
    } else {
        match spec_rpc_decode_error(route, request) {
            Some(e) => spec_answered_with_error(socket, id, spec_request_error_code(e) as i32, r),
            None => !(r matches Err(SendError::NotFound(_))),
        }
    }
}

/// How a dispatcher treats a request with a given opcode.
#[derive(Clone, Copy, Debug, PartialEq, Eq, Structural)]
pub enum RpcRoute {
    /// Decoded as `BmapRequest` and passed to [`Handlers::bmap`].
    Bmap,
    /// Decoded as `ReaddirplusRequest` and passed to [`Handlers::readdirplus`].
    Readdirplus,
    /// Decoded as `ReadlinkRequest` and passed to [`Handlers::readlink`].
    Readlink,
    /// Decoded as `ReleaseRequest` and passed to [`Handlers::release`].
    Release,
    /// Decoded as `ReleasedirRequest` and passed to [`Handlers::releasedir`].
    Releasedir,
    /// Decoded as `RemovexattrRequest` and passed to [`Handlers::removexattr`].
    Removexattr,
    /// Decoded as `RenameRequest` and passed to [`Handlers::rename`].
    Rename,
    /// Decoded as `RmdirRequest` and passed to [`Handlers::rmdir`].
    Rmdir,
    /// Decoded as `SetattrRequest` and passed to [`Handlers::setattr`].
    Setattr,
    /// Decoded as `SetlkRequest` and passed to [`Handlers::setlk`].
    Setlk,
    /// Decoded as `SetxattrRequest` and passed to [`Handlers::setxattr`].
    Setxattr,
    /// Decoded as `StatfsRequest` and passed to [`Handlers::statfs`].
    Statfs,
    /// Decoded as `SymlinkRequest` and passed to [`Handlers::symlink`].
    Symlink,
    /// Decoded as `SyncfsRequest` and passed to [`Handlers::syncfs`].
    Syncfs,
    /// Decoded as `UnlinkRequest` and passed to [`Handlers::unlink`].
    Unlink,
    /// Decoded as `WriteRequest` and passed to [`Handlers::write`].
    Write,
    /// A known operation with no handler here: answered as unimplemented.
    Unimplemented,
    /// A request that expects no reply: dropped.
    NoReply,
    /// An unknown opcode: answered as unimplemented, after telling the hooks.
    Unknown,
}

/// How a dispatcher treats a request with opcode `opcode`.
pub open spec fn spec_rpc_route(opcode: u32) -> RpcRoute {
    if opcode == FUSE_BMAP {
        RpcRoute::Bmap
    } else if opcode == FUSE_READDIRPLUS {
        RpcRoute::Readdirplus
    } else if opcode == FUSE_READLINK {
        RpcRoute::Readlink
    } else if opcode == FUSE_RELEASE {
        RpcRoute::Release
    } else if opcode == FUSE_RELEASEDIR {
        RpcRoute::Releasedir
    } else if opcode == FUSE_REMOVEXATTR {
        RpcRoute::Removexattr
    } else if opcode == FUSE_RENAME || opcode == FUSE_RENAME2 {
        RpcRoute::Rename
    } else if opcode == FUSE_RMDIR {
        RpcRoute::Rmdir
    } else if opcode == FUSE_SETATTR {
        RpcRoute::Setattr
    } else if opcode == FUSE_SETLK || opcode == FUSE_SETLKW {
        RpcRoute::Setlk
    } else if opcode == FUSE_SETXATTR {
        RpcRoute::Setxattr
    } else if opcode == FUSE_STATFS {
        RpcRoute::Statfs
    } else if opcode == FUSE_SYMLINK {
        RpcRoute::Symlink
    } else if opcode == FUSE_SYNCFS {
        RpcRoute::Syncfs
    } else if opcode == FUSE_UNLINK {
        RpcRoute::Unlink
    } else if opcode == FUSE_WRITE {
        RpcRoute::Write
    } else if opcode == FUSE_ACCESS || opcode == FUSE_COPY_FILE_RANGE || opcode == FUSE_CREATE || opcode == FUSE_DESTROY || opcode == FUSE_FALLOCATE || opcode == FUSE_FLUSH || opcode == FUSE_FSYNC || opcode == FUSE_FSYNCDIR || opcode == FUSE_GETATTR || opcode == FUSE_GETLK || opcode == FUSE_GETXATTR || opcode == FUSE_IOCTL || opcode == FUSE_LINK || opcode == FUSE_LISTXATTR || opcode == FUSE_LOOKUP || opcode == FUSE_LSEEK || opcode == FUSE_MKDIR || opcode == FUSE_MKNOD || opcode == FUSE_OPEN || opcode == FUSE_OPENDIR || opcode == FUSE_POLL || opcode == FUSE_READ || opcode == FUSE_READDIR {
        RpcRoute::Unimplemented
    } else if opcode == FUSE_FORGET || opcode == FUSE_BATCH_FORGET || opcode == FUSE_INTERRUPT {
        RpcRoute::NoReply
    } else {
        RpcRoute::Unknown
    }
}

/// Chooses how a dispatcher treats a request with opcode `opcode`.
pub fn rpc_route(opcode: u32) -> (r: RpcRoute)
    ensures
        r == spec_rpc_route(opcode),
{
    if opcode == FUSE_BMAP {
        RpcRoute::Bmap
    } else if opcode == FUSE_READDIRPLUS {
        RpcRoute::Readdirplus
    } else if opcode == FUSE_READLINK {
        RpcRoute::Readlink
    } else if opcode == FUSE_RELEASE {
        RpcRoute::Release
    } else if opcode == FUSE_RELEASEDIR {
        RpcRoute::Releasedir
    } else if opcode == FUSE_REMOVEXATTR {
        RpcRoute::Removexattr
    } else if opcode == FUSE_RENAME || opcode == FUSE_RENAME2 {
        RpcRoute::Rename
    } else if opcode == FUSE_RMDIR {
        RpcRoute::Rmdir
    } else if opcode == FUSE_SETATTR {
        RpcRoute::Setattr
    } else if opcode == FUSE_SETLK || opcode == FUSE_SETLKW {
        RpcRoute::Setlk
    } else if opcode == FUSE_SETXATTR {
        RpcRoute::Setxattr
    } else if opcode == FUSE_STATFS {
        RpcRoute::Statfs
    } else if opcode == FUSE_SYMLINK {
        RpcRoute::Symlink
    } else if opcode == FUSE_SYNCFS {
        RpcRoute::Syncfs
    } else if opcode == FUSE_UNLINK {
        RpcRoute::Unlink
    } else if opcode == FUSE_WRITE {
        RpcRoute::Write
    } else if opcode == FUSE_ACCESS || opcode == FUSE_COPY_FILE_RANGE || opcode == FUSE_CREATE || opcode == FUSE_DESTROY || opcode == FUSE_FALLOCATE || opcode == FUSE_FLUSH || opcode == FUSE_FSYNC || opcode == FUSE_FSYNCDIR || opcode == FUSE_GETATTR || opcode == FUSE_GETLK || opcode == FUSE_GETXATTR || opcode == FUSE_IOCTL || opcode == FUSE_LINK || opcode == FUSE_LISTXATTR || opcode == FUSE_LOOKUP || opcode == FUSE_LSEEK || opcode == FUSE_MKDIR || opcode == FUSE_MKNOD || opcode == FUSE_OPEN || opcode == FUSE_OPENDIR || opcode == FUSE_POLL || opcode == FUSE_READ || opcode == FUSE_READDIR {
        RpcRoute::Unimplemented
    } else if opcode == FUSE_FORGET || opcode == FUSE_BATCH_FORGET || opcode == FUSE_INTERRUPT {
        RpcRoute::NoReply
    } else {
        RpcRoute::Unknown
    }
}

/// Passes FUSE requests to RPC-style handlers.
pub struct Dispatcher<'a, S, H> {
    socket: &'a S,
    handlers: &'a H,
    layout: FuseLayout,
    hooks: Option<&'a dyn Hooks>,
}

impl<'a, S, H> Dispatcher<'a, S, H> {
    /// Whether hooks are set.
    pub closed spec fn spec_has_hooks(self) -> bool {
        self.hooks is Some
    }

    /// The socket replies go to.
    pub closed spec fn spec_socket(self) -> S {
        *self.socket
    }

    /// The layout of the session.
    pub closed spec fn spec_layout(self) -> FuseLayout {
        self.layout
    }

    /// A dispatcher for the connection `conn`.
    pub fn new(conn: &'a FuseConnection<S>, handlers: &'a H) -> (r: Dispatcher<'a, S, H>)
        ensures
            !r.spec_has_hooks(),
            r.spec_socket() == conn.spec_socket(),
            r.spec_layout() == conn.spec_layout(),
    {
        Dispatcher { socket: conn.socket(), handlers, layout: conn.layout(), hooks: None }
    }

    /// A dispatcher that answers on `socket` for a session with `layout`.
    pub fn from_socket(socket: &'a S, handlers: &'a H, layout: FuseLayout) -> (r: Dispatcher<'a, S, H>)
        ensures
            !r.spec_has_hooks(),
            r.spec_socket() == *socket,
            r.spec_layout() == layout,
    {
        Dispatcher { socket, handlers, layout, hooks: None }
    }

    /// Sets hooks that observe dispatch events.
    pub fn set_hooks(&mut self, hooks: &'a dyn Hooks)
        ensures
            final(self).spec_has_hooks(),
            final(self).spec_socket() == old(self).spec_socket(),
            final(self).spec_layout() == old(self).spec_layout(),
    {
        self.hooks = Some(hooks);
    }
}

impl<'a, S: FuseSocket, H: Handlers<S>> Dispatcher<'a, S, H> {
    /// Answers a request that could not be decoded with the error
    /// [`request_error_reply`] chooses, after telling the hooks.
    fn on_request_error<'r>(&'r self, request: FuseRequest<'r>, err: RequestError) -> (r: Result<(), SendError<S::Error>>)
        ensures
            self.spec_socket().spec_sent(
                spec_reply(request.inner.spec_header().unique, spec_request_error_code(err) as i32, Seq::empty()),
                r,
            ),
    {
        if let Some(hooks) = self.hooks {
            hooks.request_error(request.header(), err);
        }
        let sender = FuseReplySender::new(self.socket, self.layout, request.id());
        sender.err(request_error_reply(err))
    }

    /// Answers a request with an unknown opcode as unimplemented, after
    /// telling the hooks.
    fn on_request_unknown<'r>(&'r self, request: FuseRequest<'r>) -> (r: Result<(), SendError<S::Error>>)
        ensures
            self.spec_socket().spec_sent(
                spec_reply(request.inner.spec_header().unique, (-ENOSYS) as i32, Seq::empty()),
                r,
            ),
    {
        if let Some(hooks) = self.hooks {
            hooks.unknown_opcode(request.header());
        }
        let sender = FuseReplySender::new(self.socket, self.layout, request.id());
        sender.err(Error::unimplemented())
    }

    /// Handles one request: decodes it as its opcode's request type and
    /// passes it to that handler. A request that fails to decode is answered
    /// with an error; a reply to a forgotten request is no error.
    pub fn dispatch<'r>(&'r self, request: FuseRequest<'r>) -> (r: Result<(), SendError<S::Error>>)
        ensures
            !(r matches Err(SendError::NotFound(_))),
            spec_rpc_route(request.inner.spec_header().opcode) == RpcRoute::NoReply ==> r is Ok,
            spec_rpc_dispatched(self.spec_socket(), request, r),
    {
        if let Some(hooks) = self.hooks {
            hooks.request(request.header());
        }
        let call = Call { socket: self.socket, request, hooks: self.hooks };
        let result = match rpc_route(request.header().opcode) {
            RpcRoute::Bmap => match BmapRequest::from_fuse_request(&request) {
                Ok(req) => self.handlers.bmap(call, &req).error,
                Err(err) => self.on_request_error(request, err),
            },
            RpcRoute::Readdirplus => match ReaddirplusRequest::from_fuse_request(&request) {
                Ok(req) => self.handlers.readdirplus(call, &req).error,
                Err(err) => self.on_request_error(request, err),
            },
            RpcRoute::Readlink => match ReadlinkRequest::from_fuse_request(&request) {
                Ok(req) => self.handlers.readlink(call, &req).error,
                Err(err) => self.on_request_error(request, err),
            },
            RpcRoute::Release => match ReleaseRequest::from_fuse_request(&request) {
                Ok(req) => self.handlers.release(call, &req).error,
                Err(err) => self.on_request_error(request, err),
            },
            RpcRoute::Releasedir => match ReleasedirRequest::from_fuse_request(&request) {
                Ok(req) => self.handlers.releasedir(call, &req).error,
                Err(err) => self.on_request_error(request, err),
            },
            RpcRoute::Removexattr => match RemovexattrRequest::from_fuse_request(&request) {
                Ok(req) => self.handlers.removexattr(call, &req).error,
                Err(err) => self.on_request_error(request, err),
            },
            RpcRoute::Rename => match RenameRequest::from_fuse_request(&request) {
                Ok(req) => self.handlers.rename(call, &req).error,
                Err(err) => self.on_request_error(request, err),
            },
            RpcRoute::Rmdir => match RmdirRequest::from_fuse_request(&request) {
                Ok(req) => self.handlers.rmdir(call, &req).error,
                Err(err) => self.on_request_error(request, err),
            },
            RpcRoute::Setattr => match SetattrRequest::from_fuse_request(&request) {
                Ok(req) => self.handlers.setattr(call, &req).error,
                Err(err) => self.on_request_error(request, err),
            },
            RpcRoute::Setlk => match SetlkRequest::from_fuse_request(&request) {
                Ok(req) => self.handlers.setlk(call, &req).error,
                Err(err) => self.on_request_error(request, err),
            },
            RpcRoute::Setxattr => match SetxattrRequest::from_fuse_request(&request) {
                Ok(req) => self.handlers.setxattr(call, &req).error,
                Err(err) => self.on_request_error(request, err),
            },
            RpcRoute::Statfs => match StatfsRequest::from_fuse_request(&request) {
                Ok(req) => self.handlers.statfs(call, &req).error,
                Err(err) => self.on_request_error(request, err),
            },
            RpcRoute::Symlink => match SymlinkRequest::from_fuse_request(&request) {
                Ok(req) => self.handlers.symlink(call, &req).error,
                Err(err) => self.on_request_error(request, err),
            },
            RpcRoute::Syncfs => match SyncfsRequest::from_fuse_request(&request) {
                Ok(req) => self.handlers.syncfs(call, &req).error,
                Err(err) => self.on_request_error(request, err),
            },
            RpcRoute::Unlink => match UnlinkRequest::from_fuse_request(&request) {
                Ok(req) => self.handlers.unlink(call, &req).error,
                Err(err) => self.on_request_error(request, err),
            },
            RpcRoute::Write => match WriteRequest::from_fuse_request(&request) {
                Ok(req) => self.handlers.write(call, &req).error,
                Err(err) => self.on_request_error(request, err),
            },
            RpcRoute::Unimplemented => call.unimplemented().error,
            RpcRoute::NoReply => Ok(()),
            RpcRoute::Unknown => self.on_request_unknown(request),
        };
        dispatch_outcome(result)
    }
}

/// What one serving step of a session at `layout` answering on `socket`
/// gives when its receive left `buf` with the outcome `recv`: `false` once the client has closed the connection, a
/// socket error or a malformed request as an error, and otherwise the
/// outcome of dispatching the request read from the buffer, as
/// [`spec_rpc_dispatched`] says, a failed send as an error.
pub open spec fn spec_rpc_serve_step<S: FuseSocket>(
    socket: S,
    layout: FuseLayout,
    buf: Seq<u8>,
    recv: Result<usize, RecvError<S::Error>>,
    r: Result<bool, ServerError<S::Error>>,
) -> bool {
    match recv {
        Err(RecvError::ConnectionClosed(_)) => r == Ok::<bool, ServerError<S::Error>>(false),
        Err(RecvError::Other(e)) => r == Err::<bool, ServerError<S::Error>>(ServerError::RecvError(RecvError::Other(e))),
        Ok(n) => {
            let len = crate::server::session::spec_received_len(n, buf.len() as usize);
            match crate::decode::spec_check_request(buf.subrange(0, len as int)) {
                Ok(()) => exists|req: FuseRequest<'static>, d: Result<(), SendError<S::Error>>|
                    {
                        &&& req.layout == layout
                        &&& req.inner.spec_header() == crate::kernel::FuseInHeader::spec_parse(
                            buf.subrange(0, len as int),
                        )
                        &&& req.inner.spec_bytes() == buf.subrange(0, req.inner.spec_header().len as int)
                        &&& #[trigger] spec_rpc_dispatched(socket, req, d)
                        &&& match d {
                            Ok(()) => r == Ok::<bool, ServerError<S::Error>>(true),
                            Err(e) => r == Err::<bool, ServerError<S::Error>>(ServerError::SendError(e)),
                        }
                    },
                Err(e) => r == Err::<bool, ServerError<S::Error>>(ServerError::RequestError(e)),
            }
        },
    }
}

/// One step of serving: receives a request into `buf` and dispatches it.
/// Returns `false` once the client has closed the connection.
pub fn serve_one<S: FuseSocket, H: Handlers<S>>(
    conn: &FuseConnection<S>,
    dispatcher: &Dispatcher<'_, S, H>,
    buf: &mut [u8],
) -> (r: Result<bool, crate::server::ServerError<S::Error>>)
    ensures
        exists|recv: Result<usize, RecvError<S::Error>>|
            #[trigger] conn.spec_socket().spec_received(final(buf)@, recv) && spec_rpc_serve_step(
                dispatcher.spec_socket(),
                conn.spec_layout(),
                final(buf)@,
                recv,
                r,
            ),
        r matches Ok(true) ==> exists|h: crate::kernel::FuseInHeader, bytes: Seq<u8>|
            crate::server::session::spec_request_in(final(buf)@, h, bytes),
        r matches Err(crate::server::ServerError::RequestError(e))
            ==> crate::server::session::spec_request_error_in(final(buf)@, e),
        !(r matches Err(crate::server::ServerError::SendError(SendError::NotFound(_)))),
{
    let received = conn.recv(buf);
    let ghost got = received;
    let r = match received {
        Err(e) => Err(e),
        Ok(None) => Ok(false),
        Ok(Some(request)) => {
            let d = dispatcher.dispatch(request);
            proof {
                assert(spec_rpc_dispatched(dispatcher.spec_socket(), request, d));
            }
            match d {
                Ok(()) => Ok(true),
                Err(e) => Err(crate::server::ServerError::SendError(e)),
            }
        },
    };
    proof {
        let w = choose|recv: Result<usize, RecvError<S::Error>>|
            #[trigger] conn.spec_socket().spec_received(final(buf)@, recv)
                && crate::server::session::spec_fuse_received(conn.spec_layout(), final(buf)@, recv, got);
        assert(spec_rpc_serve_step(dispatcher.spec_socket(), conn.spec_layout(), final(buf)@, w, r));
    }
    r
}

// }}}

} // verus!
