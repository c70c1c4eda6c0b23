//! Sessions: the init handshake, established connections, and the builders
//! that set a server's handshake options.

use vstd::prelude::*;

use crate::decode::{spec_check_request, Request};
use crate::encode::{spec_reply, spec_reply_len};
use crate::error::RequestError;
use crate::kernel::{CuseInitOut, FuseInHeader, FuseInitOut, FUSE_MIN_READ_BUFFER, FUSE_SETXATTR_EXT};
use crate::operations::cuse_init::{
    CuseDeviceName,
    CuseDeviceNumber,
    CuseInitFlag,
    CuseInitFlags,
    CuseInitRequest,
    CuseInitResponse,
    spec_device_info,
    spec_encode_cuse_init_out,
    spec_parse_cuse_init,
};
use crate::operations::fuse_init::{spec_init_payload, spec_parse_fuse_init, FuseInitFlag, FuseInitFlags, FuseInitRequest, FuseInitResponse};
use crate::server::dispatch::{spec_cuse_dispatched, spec_fuse_dispatched, CuseHandlers, FuseHandlers};
use crate::server::{
    spec_reply_sent,
    negotiate_version,
    recv_buf_len,
    spec_negotiate_version,
    spec_recv_buf_len,
    CuseLayout,
    CuseReply,
    CuseReplySender,
    CuseRequest,
    CuseSocket,
    FuseLayout,
    FuseReply,
    FuseReplySender,
    FuseRequest,
    FuseSocket,
    RecvError,
    SendError,
    ServerError,
    Version,
};

verus! {

// Handshake {{{

/// The reply to a `FUSE_INIT` request from a client at `version` offering
/// `flags`, for a server whose options are `opts`, and whether the session
/// opens. A client whose major version differs is answered with the latest
/// version and no session, so that it may retry.
pub open spec fn spec_fuse_handshake(version: Version, flags: u32, opts: FuseInitOut) -> (FuseInitOut, bool) {
    match spec_negotiate_version(version) {
        Some(v) => (FuseInitOut { major: v.major, minor: v.minor, flags: flags & opts.flags, ..opts }, true),
        None => (FuseInitResponse::spec_new(), false),
    }
}

/// Answers a `FUSE_INIT` request.
pub fn fuse_handshake(request: &FuseInitRequest, opts: &FuseInitResponse) -> (r: (FuseInitResponse, bool))
    ensures
        (r.0.raw, r.1) == spec_fuse_handshake(
            request.spec_fields().0,
            request.spec_fields().2,
            opts.raw,
        ),
        r.1 ==> {
            &&& r.0.raw.max_readahead == opts.raw.max_readahead
            &&& r.0.raw.max_background == opts.raw.max_background
            &&& r.0.raw.congestion_threshold == opts.raw.congestion_threshold
            &&& r.0.raw.max_write == opts.raw.max_write
            &&& r.0.raw.time_gran == opts.raw.time_gran
        },
{
    match negotiate_version(request.version()) {
        Some(version) => {
            let mut reply = FuseInitResponse::new();
            reply.set_congestion_threshold(opts.congestion_threshold());
            reply.set_max_background(opts.max_background());
            reply.set_max_readahead(opts.max_readahead());
            reply.set_max_write(opts.max_write());
            reply.set_time_granularity(opts.time_granularity());
            reply.set_flags(request.flags().intersect(opts.flags()));
            reply.set_version(version);
            (reply, true)
        },
        None => {
            let mut reply = FuseInitResponse::new();
            reply.set_version(Version::latest());
            (reply, false)
        },
    }
}

/// The fixed part of the reply to a `CUSE_INIT` request from a client at
/// `version` offering `flags`, for a server offering `server_flags`, and
/// whether the session opens. A client whose major version differs is
/// answered with the latest version, no device, and no session.
pub open spec fn spec_cuse_handshake(
    version: Version,
    flags: u32,
    server_flags: u32,
    max_read: u32,
    max_write: u32,
    number: CuseDeviceNumber,
) -> (CuseInitOut, bool) {
    match spec_negotiate_version(version) {
        Some(v) => (
            CuseInitOut {
                major: v.major,
                minor: v.minor,
                flags: flags & server_flags,
                max_read: max_read,
                max_write: max_write,
                dev_major: number.major,
                dev_minor: number.minor,
            },
            true,
        ),
        None => (CuseInitResponse::spec_new(), false),
    }
}

/// Answers a `CUSE_INIT` request.
pub fn cuse_handshake<'a>(request: &CuseInitRequest, server: &CuseServer<'a>) -> (r: (CuseInitResponse<'a>, bool))
    ensures
        (r.0.raw, r.1) == spec_cuse_handshake(
            request.spec_fields().0,
            request.spec_fields().1,
            server.flags.bits(),
            server.max_read,
            server.max_write,
            server.device_number,
        ),
        r.1 ==> r.0.spec_device_name() == Some(server.device_name.view_bytes()),
        !r.1 ==> r.0.spec_device_name() is None,
        r.1 ==> {
            &&& r.0.raw.max_read == server.max_read
            &&& r.0.raw.max_write == server.max_write
            &&& r.0.raw.dev_major == server.device_number.major
            &&& r.0.raw.dev_minor == server.device_number.minor
        },
{
    match negotiate_version(request.version()) {
        Some(version) => {
            let mut reply = CuseInitResponse::new(server.device_name);
            reply.set_device_number(server.device_number);
            reply.set_max_read(server.max_read);
            reply.set_max_write(server.max_write);
            reply.set_flags(request.flags().intersect(server.flags));
            reply.set_version(version);
            (reply, true)
        },
        None => {
            let mut reply = CuseInitResponse::new_nameless();
            reply.set_version(Version::latest());
            (reply, false)
        },
    }
}

/// Answers a `FUSE_INIT` request with a reply the server built for it
/// (`built`): for a client of the same major version, `built` with the
/// negotiated version, and the session opens; otherwise a fresh reply naming
/// the latest version, and no session.
pub fn fuse_handshake_with(request: &FuseInitRequest, built: FuseInitResponse) -> (r: (FuseInitResponse, bool))
    ensures
        match spec_negotiate_version(request.spec_fields().0) {
            Some(v) => r.1 && r.0.raw == (FuseInitOut { major: v.major, minor: v.minor, ..built.raw }),
            None => !r.1 && r.0.raw == FuseInitResponse::spec_new(),
        },
{
    match negotiate_version(request.version()) {
        Some(version) => {
            let mut reply = built;
            reply.set_version(version);
            (reply, true)
        },
        None => {
            let mut reply = FuseInitResponse::new();
            reply.set_version(Version::latest());
            (reply, false)
        },
    }
}

/// Answers a `CUSE_INIT` request with a reply the server built for it
/// (`built`): for a client of the same major version, `built` with the
/// negotiated version, and the session opens; otherwise a fresh reply naming
/// the latest version and no device, and no session.
pub fn cuse_handshake_with<'a>(request: &CuseInitRequest, built: CuseInitResponse<'a>) -> (r: (
    CuseInitResponse<'a>,
    bool,
))
    ensures
        match spec_negotiate_version(request.spec_fields().0) {
            Some(v) => {
                &&& r.1
                &&& r.0.raw == (CuseInitOut { major: v.major, minor: v.minor, ..built.raw })
                &&& r.0.spec_device_name() == built.spec_device_name()
            },
            None => !r.1 && r.0.raw == CuseInitResponse::spec_new() && r.0.spec_device_name() is None,
        },
{
    match negotiate_version(request.version()) {
        Some(version) => {
            let mut reply = built;
            reply.set_version(version);
            (reply, true)
        },
        None => {
            let mut reply = CuseInitResponse::new_nameless();
            reply.set_version(Version::latest());
            (reply, false)
        },
    }
}

// }}}

// Receiving {{{

/// How many bytes of a receive buffer of `buf_len` bytes hold a request,
/// when the socket reports `recv_len`: never more than the buffer.
pub open spec fn spec_received_len(recv_len: usize, buf_len: usize) -> usize {
    if recv_len > buf_len {
        buf_len
    } else {
        recv_len
    }
}

/// What a FUSE session makes of the outcome `recv` of a receive that left
/// the buffer holding `buf`: a closed connection ends the session (`None`),
/// another socket error is returned, and the received bytes must form a
/// request, whose header and bytes are read from the buffer.
pub open spec fn spec_fuse_received<'a, E>(
    layout: FuseLayout,
    buf: Seq<u8>,
    recv: Result<usize, RecvError<E>>,
    r: Result<Option<FuseRequest<'a>>, ServerError<E>>,
) -> bool {
    match recv {
        Err(RecvError::ConnectionClosed(_)) => r matches Ok(None),
        Err(RecvError::Other(e)) => r matches Err(ServerError::RecvError(RecvError::Other(e2))) && e2 == e,
        Ok(n) => {
            let len = spec_received_len(n, buf.len() as usize);
            match spec_check_request(buf.subrange(0, len as int)) {
                Ok(()) => r matches Ok(Some(req)) && {
                    &&& req.layout == layout
                    &&& req.inner.spec_header() == FuseInHeader::spec_parse(buf.subrange(0, len as int))
                    &&& req.inner.spec_bytes() == buf.subrange(0, req.inner.spec_header().len as int)
                },
                Err(e) => r matches Err(ServerError::RequestError(e2)) && e2 == e,
            }
        },
    }
}

/// What a CUSE session makes of the outcome `recv` of a receive that left
/// the buffer holding `buf`: any socket error is returned, and the received
/// bytes must form a request, whose header and bytes are read from the
/// buffer.
pub open spec fn spec_cuse_received<'a, E>(
    layout: CuseLayout,
    buf: Seq<u8>,
    recv: Result<usize, RecvError<E>>,
    r: Result<CuseRequest<'a>, ServerError<E>>,
) -> bool {
    match recv {
        Err(e) => r matches Err(ServerError::RecvError(e2)) && e2 == e,
        Ok(n) => {
            let len = spec_received_len(n, buf.len() as usize);
            match spec_check_request(buf.subrange(0, len as int)) {
                Ok(()) => r matches Ok(req) && {
                    &&& req.layout == layout
                    &&& req.inner.spec_header() == FuseInHeader::spec_parse(buf.subrange(0, len as int))
                    &&& req.inner.spec_bytes() == buf.subrange(0, req.inner.spec_header().len as int)
                },
                Err(e) => r matches Err(ServerError::RequestError(e2)) && e2 == e,
            }
        },
    }
}

/// What a FUSE session makes of the outcome `recv` of receiving into `buf`:
/// a closed connection ends the session, another socket error is returned,
/// and received bytes must form a request.
pub fn fuse_received<'a, E>(layout: FuseLayout, buf: &'a [u8], recv: Result<usize, RecvError<E>>) -> (r:
    Result<Option<FuseRequest<'a>>, ServerError<E>>)
    ensures
        spec_fuse_received(layout, buf@, recv, r),
{
    match recv {
        Err(RecvError::ConnectionClosed(_)) => Ok(None),
        Err(RecvError::Other(e)) => Err(ServerError::RecvError(RecvError::Other(e))),
        Ok(n) => {
            let len = if n > buf.len() { buf.len() } else { n };
            let received = &buf[0..len];
            match FuseRequest::new(received, layout) {
                Ok(req) => {
                    proof {
                        assert(received@.subrange(0, req.inner.spec_header().len as int)
                            == buf@.subrange(0, req.inner.spec_header().len as int));
                    }
                    Ok(Some(req))
                },
                Err(e) => Err(ServerError::RequestError(e)),
            }
        },
    }
}

/// What a CUSE session makes of the outcome `recv` of receiving into `buf`:
/// any socket error is returned, and received bytes must form a request.
pub fn cuse_received<'a, E>(layout: CuseLayout, buf: &'a [u8], recv: Result<usize, RecvError<E>>) -> (r:
    Result<CuseRequest<'a>, ServerError<E>>)
    ensures
        spec_cuse_received(layout, buf@, recv, r),
{
    match recv {
        Err(e) => Err(ServerError::RecvError(e)),
        Ok(n) => {
            let len = if n > buf.len() { buf.len() } else { n };
            let received = &buf[0..len];
            match CuseRequest::new(received, layout) {
                Ok(req) => {
                    proof {
                        assert(received@.subrange(0, req.inner.spec_header().len as int)
                            == buf@.subrange(0, req.inner.spec_header().len as int));
                    }
                    Ok(req)
                },
                Err(e) => Err(ServerError::RequestError(e)),
            }
        },
    }
}

// }}}

/// Whether a request with header `h` and bytes `bytes` is what the first
/// `n` bytes of the receive buffer `buf` hold, for some `n`: those bytes form
/// a request, `h` is its header and `bytes` the part its length covers.
pub open spec fn spec_request_in(buf: Seq<u8>, h: FuseInHeader, bytes: Seq<u8>) -> bool {
    exists|n: int|
        0 <= n <= buf.len() && #[trigger] spec_check_request(buf.subrange(0, n)) is Ok && h
            == FuseInHeader::spec_parse(buf.subrange(0, n)) && bytes == buf.subrange(0, h.len as int)
}

/// Whether the first `n` bytes of the receive buffer `buf`, for some `n`,
/// are refused as a request with the error `e`.
pub open spec fn spec_request_error_in(buf: Seq<u8>, e: RequestError) -> bool {
    exists|n: int| 0 <= n <= buf.len() && #[trigger] spec_check_request(buf.subrange(0, n)) == Err::<(), _>(e)
}

// Handshake steps {{{

/// What a round of the FUSE handshake makes of receiving `recv` into `buf`:
/// the `FUSE_INIT` request's header, the client's version and the flags it
/// offers. A socket error, a closed connection included, is returned as it
/// is; bytes that do not form a `FUSE_INIT` request are a request error.
pub open spec fn spec_fuse_init_received<E>(buf: Seq<u8>, recv: Result<usize, RecvError<E>>) -> Result<
    (FuseInHeader, Version, u32),
    ServerError<E>,
> {
    match recv {
        Err(e) => Err(ServerError::RecvError(e)),
        Ok(n) => {
            let bytes = buf.subrange(0, spec_received_len(n, buf.len() as usize) as int);
            match spec_check_request(bytes) {
                Err(e) => Err(ServerError::RequestError(e)),
                Ok(()) => {
                    let h = FuseInHeader::spec_parse(bytes);
                    match spec_parse_fuse_init(h, buf.subrange(0, h.len as int)) {
                        Err(e) => Err(ServerError::RequestError(e)),
                        Ok((version, _, flags)) => Ok((h, version, flags)),
                    }
                },
            }
        },
    }
}

/// Decodes the `FUSE_INIT` request of a handshake round from the outcome
/// `recv` of receiving into `buf`; gives the request's ID and the request.
pub fn fuse_init_received<E>(buf: &[u8], recv: Result<usize, RecvError<E>>) -> (r: Result<
    (u64, FuseInitRequest),
    ServerError<E>,
>)
    ensures
        match spec_fuse_init_received(buf@, recv) {
            Err(e) => r matches Err(e2) && e2 == e,
            Ok((h, version, flags)) => r matches Ok((id, req)) && {
                &&& id == h.unique
                &&& id != 0
                &&& req.spec_fields().0 == version
                &&& req.spec_fields().2 == flags
            },
        },
{
    let n = match recv {
        Err(e) => return Err(ServerError::RecvError(e)),
        Ok(n) => n,
    };
    let len = if n > buf.len() { buf.len() } else { n };
    let received = &buf[0..len];
    let request = match FuseRequest::new(received, FuseLayout::latest()) {
        Ok(req) => req,
        Err(e) => return Err(ServerError::RequestError(e)),
    };
    proof {
        assert(received@ == buf@.subrange(0, len as int));
        assert(received@.subrange(0, request.inner.spec_header().len as int)
            == buf@.subrange(0, request.inner.spec_header().len as int));
    }
    match FuseInitRequest::from_request(&request.inner) {
        Ok(init) => Ok((request.id(), init)),
        Err(e) => Err(ServerError::RequestError(e)),
    }
}

/// Whether a session at `layout` is the one the FUSE handshake opens for a
/// client at `version` offering `flags`, with the server options `opts`:
/// the handshake accepts the client, and the session takes the reply's
/// minor version and its `SETXATTR_EXT` flag.
pub open spec fn spec_fuse_opened(layout: FuseLayout, version: Version, flags: u32, opts: FuseInitOut) -> bool {
    let (reply, ok) = spec_fuse_handshake(version, flags, opts);
    &&& ok
    &&& layout.spec_version_minor() == reply.minor
    &&& layout.spec_setxattr_ext() == (reply.flags & FUSE_SETXATTR_EXT != 0)
}

/// Ends a round of the FUSE handshake whose reply `reply` went to the client
/// with outcome `sent`: a failed send is returned; otherwise the session
/// opens on `socket` if the handshake accepted the client (`ok`), and else
/// the socket is handed back for another round.
pub fn fuse_handshake_sent<S: FuseSocket>(
    socket: S,
    reply: &FuseInitResponse,
    ok: bool,
    sent: Result<(), SendError<S::Error>>,
) -> (r: Result<FuseHandshake<S>, ServerError<S::Error>>)
    ensures
        match sent {
            Err(e) => r matches Err(ServerError::SendError(e2)) && e2 == e,
            Ok(()) => if ok {
                r matches Ok(FuseHandshake::Connected(c)) && {
                    &&& c.spec_socket() == socket
                    &&& c.spec_layout().spec_version_minor() == (reply.raw.minor as u16) as u32
                    &&& c.spec_layout().spec_setxattr_ext() == (reply.raw.flags & FUSE_SETXATTR_EXT != 0)
                    &&& c.spec_recv_buf_len() == spec_recv_buf_len(reply.raw.max_write)
                }
            } else {
                r matches Ok(FuseHandshake::Retry(s)) && s == socket
            },
        },
{
    match sent {
        Err(e) => Err(ServerError::SendError(e)),
        Ok(()) => if ok {
            Ok(FuseHandshake::Connected(FuseConnection::from_reply(socket, reply)))
        } else {
            Ok(FuseHandshake::Retry(socket))
        },
    }
}

/// How a round of the FUSE handshake ends once its reply `reply` went to
/// the client with outcome `sent`, as [`fuse_handshake_sent`] decides.
pub open spec fn spec_fuse_round_end<S: FuseSocket>(
    socket: S,
    reply: FuseInitOut,
    ok: bool,
    sent: Result<(), SendError<S::Error>>,
    r: Result<FuseHandshake<S>, ServerError<S::Error>>,
) -> bool {
    match sent {
        Err(e) => r == Err::<FuseHandshake<S>, ServerError<S::Error>>(ServerError::SendError(e)),
        Ok(()) => if ok {
            r matches Ok(FuseHandshake::Connected(c)) && {
                &&& c.spec_socket() == socket
                &&& c.spec_layout().spec_version_minor() == (reply.minor as u16) as u32
                &&& c.spec_layout().spec_setxattr_ext() == (reply.flags & FUSE_SETXATTR_EXT != 0)
                &&& c.spec_recv_buf_len() == spec_recv_buf_len(reply.max_write)
            }
        } else {
            r == Ok::<FuseHandshake<S>, ServerError<S::Error>>(FuseHandshake::Retry(socket))
        },
    }
}

/// What a round of the FUSE handshake on `socket` with the options `opts`
/// gives when its receive left `filled` with the outcome `recv`: an error
/// of [`spec_fuse_init_received`] is returned at once; otherwise the reply
/// that [`spec_fuse_handshake`] chooses is sent to the request, and the
/// round ends as [`spec_fuse_round_end`] says.
pub open spec fn spec_fuse_round<S: FuseSocket>(
    socket: S,
    filled: Seq<u8>,
    recv: Result<usize, RecvError<S::Error>>,
    opts: FuseInitOut,
    r: Result<FuseHandshake<S>, ServerError<S::Error>>,
) -> bool {
    match spec_fuse_init_received(filled, recv) {
        Err(e) => r == Err::<FuseHandshake<S>, ServerError<S::Error>>(e),
        Ok((h, version, flags)) => {
            let (reply, ok) = spec_fuse_handshake(version, flags, opts);
            let payload = spec_init_payload(reply);
            exists|sent: Result<(), SendError<S::Error>>|
                #[trigger] spec_reply_sent(
                    &socket,
                    h.unique,
                    payload,
                    spec_reply_len(payload.len() as int, 0, 0, 0),
                    sent,
                ) && spec_fuse_round_end(socket, reply, ok, sent, r)
        },
    }
}

/// What a round of the CUSE handshake makes of receiving `recv` into `buf`:
/// the `CUSE_INIT` request's header, the client's version and the flags it
/// offers. A socket error is returned as it is; bytes that do not form a
/// `CUSE_INIT` request are a request error.
pub open spec fn spec_cuse_init_received<E>(buf: Seq<u8>, recv: Result<usize, RecvError<E>>) -> Result<
    (FuseInHeader, Version, u32),
    ServerError<E>,
> {
    match recv {
        Err(e) => Err(ServerError::RecvError(e)),
        Ok(n) => {
            let bytes = buf.subrange(0, spec_received_len(n, buf.len() as usize) as int);
            match spec_check_request(bytes) {
                Err(e) => Err(ServerError::RequestError(e)),
                Ok(()) => {
                    let h = FuseInHeader::spec_parse(bytes);
                    match spec_parse_cuse_init(h, buf.subrange(0, h.len as int)) {
                        Err(e) => Err(ServerError::RequestError(e)),
                        Ok((version, flags)) => Ok((h, version, flags)),
                    }
                },
            }
        },
    }
}

/// How a round of the CUSE handshake ends once its reply `reply` went to
/// the client with outcome `sent`, as [`cuse_handshake_sent`] decides.
pub open spec fn spec_cuse_round_end<S: CuseSocket>(
    socket: S,
    reply: CuseInitOut,
    ok: bool,
    sent: Result<(), SendError<S::Error>>,
    r: Result<CuseHandshake<S>, ServerError<S::Error>>,
) -> bool {
    match sent {
        Err(e) => r == Err::<CuseHandshake<S>, ServerError<S::Error>>(ServerError::SendError(e)),
        Ok(()) => if ok {
            r matches Ok(CuseHandshake::Connected(c)) && {
                &&& c.spec_socket() == socket
                &&& c.spec_layout().spec_version_minor() == (reply.minor as u16) as u32
                &&& c.spec_recv_buf_len() == spec_recv_buf_len(reply.max_write)
            }
        } else {
            r == Ok::<CuseHandshake<S>, ServerError<S::Error>>(CuseHandshake::Retry(socket))
        },
    }
}

/// The payload of the reply a CUSE handshake sends: the fixed part, then
/// the device's name where the session opens.
pub open spec fn spec_cuse_reply_payload(reply: CuseInitOut, ok: bool, server: CuseServer) -> Seq<u8> {
    spec_encode_cuse_init_out(reply) + spec_device_info(
        if ok {
            Some(server.device_name.view_bytes())
        } else {
            None
        },
    )
}

/// What a round of the CUSE handshake on `socket` for `server` gives when
/// its receive left `filled` with the outcome `recv`: an error of
/// [`spec_cuse_init_received`] is returned at once; otherwise the reply that
/// [`spec_cuse_handshake`] chooses is sent to the request, and the round
/// ends as [`spec_cuse_round_end`] says.
pub open spec fn spec_cuse_round<S: CuseSocket>(
    socket: S,
    filled: Seq<u8>,
    recv: Result<usize, RecvError<S::Error>>,
    server: CuseServer,
    r: Result<CuseHandshake<S>, ServerError<S::Error>>,
) -> bool {
    match spec_cuse_init_received(filled, recv) {
        Err(e) => r == Err::<CuseHandshake<S>, ServerError<S::Error>>(e),
        Ok((h, version, flags)) => {
            let (reply, ok) = spec_cuse_handshake(
                version,
                flags,
                server.flags.bits(),
                server.max_read,
                server.max_write,
                server.device_number,
            );
            let payload = spec_cuse_reply_payload(reply, ok, server);
            exists|sent: Result<(), SendError<S::Error>>|
                #[trigger] spec_reply_sent(
                    &socket,
                    h.unique,
                    payload,
                    spec_reply_len(payload.len() as int, 0, 0, 0),
                    sent,
                ) && spec_cuse_round_end(socket, reply, ok, sent, r)
        },
    }
}

/// Decodes the `CUSE_INIT` request of a handshake round from the outcome
/// `recv` of receiving into `buf`; gives the request's ID and the request.
pub fn cuse_init_received<E>(buf: &[u8], recv: Result<usize, RecvError<E>>) -> (r: Result<
    (u64, CuseInitRequest),
    ServerError<E>,
>)
    ensures
        match spec_cuse_init_received(buf@, recv) {
            Err(e) => r matches Err(e2) && e2 == e,
            Ok((h, version, flags)) => r matches Ok((id, req)) && {
                &&& id == h.unique
                &&& id != 0
                &&& req.spec_fields().0 == version
                &&& req.spec_fields().1 == flags
            },
        },
{
    let n = match recv {
        Err(e) => return Err(ServerError::RecvError(e)),
        Ok(n) => n,
    };
    let len = if n > buf.len() { buf.len() } else { n };
    let received = &buf[0..len];
    let request = match CuseRequest::new(received, CuseLayout::latest()) {
        Ok(req) => req,
        Err(e) => return Err(ServerError::RequestError(e)),
    };
    proof {
        assert(received@ == buf@.subrange(0, len as int));
        assert(received@.subrange(0, request.inner.spec_header().len as int)
            == buf@.subrange(0, request.inner.spec_header().len as int));
    }
    match CuseInitRequest::from_request(&request.inner) {
        Ok(init) => Ok((request.id(), init)),
        Err(e) => Err(ServerError::RequestError(e)),
    }
}

/// Whether a session at `layout` is the one the CUSE handshake opens for a
/// client at `version` offering `flags`, for `server`: the handshake
/// accepts the client, and the session takes the reply's minor version.
pub open spec fn spec_cuse_opened(layout: CuseLayout, version: Version, flags: u32, server: CuseServer) -> bool {
    let (reply, ok) = spec_cuse_handshake(
        version,
        flags,
        server.flags.bits(),
        server.max_read,
        server.max_write,
        server.device_number,
    );
    &&& ok
    &&& layout.spec_version_minor() == reply.minor
}

/// Ends a round of the CUSE handshake whose reply `reply` went to the client
/// with outcome `sent`: a failed send is returned; otherwise the session
/// opens on `socket` if the handshake accepted the client (`ok`), and else
/// the socket is handed back for another round.
pub fn cuse_handshake_sent<S: CuseSocket>(
    socket: S,
    reply: &CuseInitResponse,
    ok: bool,
    sent: Result<(), SendError<S::Error>>,
) -> (r: Result<CuseHandshake<S>, ServerError<S::Error>>)
    ensures
        match sent {
            Err(e) => r matches Err(ServerError::SendError(e2)) && e2 == e,
            Ok(()) => if ok {
                r matches Ok(CuseHandshake::Connected(c)) && {
                    &&& c.spec_socket() == socket
                    &&& c.spec_layout().spec_version_minor() == (reply.raw.minor as u16) as u32
                    &&& c.spec_recv_buf_len() == spec_recv_buf_len(reply.raw.max_write)
                }
            } else {
                r matches Ok(CuseHandshake::Retry(s)) && s == socket
            },
        },
{
    match sent {
        Err(e) => Err(ServerError::SendError(e)),
        Ok(()) => if ok {
            Ok(CuseHandshake::Connected(CuseConnection::from_reply(socket, reply)))
        } else {
            Ok(CuseHandshake::Retry(socket))
        },
    }
}

// }}}

// FuseConnection {{{

/// An active connection to a FUSE client.
pub struct FuseConnection<S> {
    socket: S,
    layout: FuseLayout,
    recv_buf_len: usize,
}

/// The outcome of one round of the FUSE handshake.
pub enum FuseHandshake<S> {
    /// The client accepted the reply; the session is open.
    Connected(FuseConnection<S>),
    /// The client speaks another major version and was told the latest one;
    /// it may try again on the same socket.
    Retry(S),
}

impl<S> FuseConnection<S> {
    /// The socket of this connection.
    pub closed spec fn spec_socket(self) -> S {
        self.socket
    }

    /// The session layout.
    pub closed spec fn spec_layout(self) -> FuseLayout {
        self.layout
    }

    /// The receive buffer length.
    pub closed spec fn spec_recv_buf_len(self) -> usize {
        self.recv_buf_len
    }

    /// The connection opened by the accepted init reply `reply` on `socket`:
    /// its layout follows the reply, and its receive buffer holds the
    /// largest write the reply allows.
    pub fn from_reply(socket: S, reply: &FuseInitResponse) -> (r: FuseConnection<S>)
        ensures
            r.spec_layout().spec_version_minor() == (reply.raw.minor as u16) as u32,
            r.spec_layout().spec_setxattr_ext() == (reply.raw.flags & crate::kernel::FUSE_SETXATTR_EXT != 0),
            r.spec_recv_buf_len() == spec_recv_buf_len(reply.raw.max_write),
            r.spec_socket() == socket,
    {
        FuseConnection {
            socket,
            layout: FuseLayout::new2(&reply.raw),
            recv_buf_len: recv_buf_len(reply.max_write()),
        }
    }

    /// The socket of this connection.
    pub fn socket(&self) -> (r: &S)
        ensures
            *r == self.spec_socket(),
    {
        &self.socket
    }

    /// The session layout.
    pub fn layout(&self) -> (r: FuseLayout)
        ensures
            r == self.spec_layout(),
    {
        self.layout
    }

    /// The smallest receive buffer that holds any request of this session.
    pub fn recv_buf_len(&self) -> (r: usize)
        ensures
            r == self.spec_recv_buf_len(),
    {
        self.recv_buf_len
    }
}

impl<S: FuseSocket> FuseConnection<S> {
    /// One round of the FUSE handshake on `socket`: receives a `FUSE_INIT`
    /// request, answers it as [`fuse_handshake`] does with the options
    /// `opts`, and opens the session if the client's version allows. Each
    /// decision is made by [`fuse_init_received`], [`fuse_handshake`] and
    /// [`fuse_handshake_sent`] on what the socket gave back.
    pub fn try_connect(socket: S, opts: &FuseInitResponse) -> (r: Result<FuseHandshake<S>, ServerError<S::Error>>)
        ensures
            r matches Ok(FuseHandshake::Connected(c)) ==> {
                &&& c.spec_socket() == socket
                &&& c.spec_recv_buf_len() == spec_recv_buf_len(opts.raw.max_write)
                &&& exists|version: Version, flags: u32| spec_fuse_opened(c.spec_layout(), version, flags, opts.raw)
            },
            r matches Ok(FuseHandshake::Retry(s)) ==> s == socket,
            exists|filled: Seq<u8>, recv: Result<usize, RecvError<S::Error>>|
                #[trigger] socket.spec_received(filled, recv) && spec_fuse_round(socket, filled, recv, opts.raw, r),
    {
        let mut buf: Vec<u8> = vec![0u8; FUSE_MIN_READ_BUFFER];
        let recv = socket.recv(buf.as_mut_slice());
        let ghost filled = buf@;
        let ghost outcome = recv;
        let (request_id, init_req) = match fuse_init_received(buf.as_slice(), recv) {
            Ok(x) => x,
            Err(e) => {
                proof {
                    assert(socket.spec_received(filled, outcome));
                    assert(spec_fuse_round(socket, filled, outcome, opts.raw, Err(e)));
                }
                return Err(e);
            },
        };
        let (reply, ok) = fuse_handshake(&init_req, opts);
        let sent = reply.send_to(FuseReplySender::new(&socket, FuseLayout::latest(), request_id));
        let ghost sent_g = sent;
        let r = fuse_handshake_sent(socket, &reply, ok, sent);
        proof {
            assert(socket.spec_received(filled, outcome));
            let payload = spec_init_payload(reply.raw);
            assert(spec_reply_sent(
                &socket,
                request_id,
                payload,
                spec_reply_len(payload.len() as int, 0, 0, 0),
                sent_g,
            ));
            assert(spec_fuse_round_end(socket, reply.raw, ok, sent_g, r));
            match spec_fuse_init_received(filled, outcome) {
                Ok((h, version, flags)) => {
                    assert(request_id == h.unique);
                    assert(spec_fuse_handshake(version, flags, opts.raw) == (reply.raw, ok));
                    let payload2 = spec_init_payload(spec_fuse_handshake(version, flags, opts.raw).0);
                    assert(payload2 == payload);
                    assert(spec_reply_sent(
                        &socket,
                        h.unique,
                        payload2,
                        spec_reply_len(payload2.len() as int, 0, 0, 0),
                        sent_g,
                    ));
                    assert(spec_fuse_round_end(socket, spec_fuse_handshake(version, flags, opts.raw).0, spec_fuse_handshake(version, flags, opts.raw).1, sent_g, r));
                    assert(spec_fuse_round(socket, filled, outcome, opts.raw, r));
                },
                Err(_) => {},
            }
            assert(r matches Ok(FuseHandshake::Connected(c)) ==> spec_fuse_opened(
                c.spec_layout(),
                init_req.spec_fields().0,
                init_req.spec_fields().2,
                opts.raw,
            ));
        }
        r
    }

    /// Receives the next request into `buf`; `None` once the client has
    /// closed the connection.
    pub fn recv<'a>(&self, buf: &'a mut [u8]) -> (r: Result<Option<FuseRequest<'a>>, ServerError<S::Error>>)
        ensures
            exists|recv: Result<usize, RecvError<S::Error>>|
                #[trigger] self.spec_socket().spec_received(final(buf)@, recv) && spec_fuse_received(
                    self.spec_layout(),
                    final(buf)@,
                    recv,
                    r,
                ),
            r matches Ok(Some(req)) ==> {
                &&& req.layout == self.spec_layout()
                &&& spec_request_in(final(buf)@, req.inner.spec_header(), req.inner.spec_bytes())
            },
            r matches Err(ServerError::RequestError(e)) ==> spec_request_error_in(final(buf)@, e),
            r matches Err(e) ==> e is RecvError || e is RequestError,
    {
        let recv = self.socket.recv(buf);
        let received: &'a [u8] = buf;
        let ghost outcome = recv;
        let r = fuse_received(self.layout, received, recv);
        proof {
            assert(self.spec_socket().spec_received(received@, outcome));
            assert(spec_fuse_received(self.spec_layout(), received@, outcome, r));
            match outcome {
                Ok(n) => {
                    let len = spec_received_len(n, received@.len() as usize) as int;
                    assert(spec_check_request(received@.subrange(0, len)) == spec_check_request(
                        received@.subrange(0, len),
                    ));
                },
                Err(_) => {},
            }
        }
        r
    }

    /// A sender for the reply to request `request_id`.
    pub fn reply(&self, request_id: u64) -> (r: FuseReplySender<'_, S>)
        requires
            request_id != 0,
        ensures
            r.inner.request_id == request_id,
            r.layout == self.spec_layout(),
    {
        FuseReplySender::new(&self.socket, self.layout, request_id)
    }
}

// }}}

// CuseConnection {{{

/// An active connection to a CUSE client.
pub struct CuseConnection<S> {
    socket: S,
    layout: CuseLayout,
    recv_buf_len: usize,
}

/// The outcome of one round of the CUSE handshake.
pub enum CuseHandshake<S> {
    /// The client accepted the reply; the session is open.
    Connected(CuseConnection<S>),
    /// The client speaks another major version and was told the latest one;
    /// it may try again on the same socket.
    Retry(S),
}

impl<S> CuseConnection<S> {
    /// The socket of this connection.
    pub closed spec fn spec_socket(self) -> S {
        self.socket
    }

    /// The session layout.
    pub closed spec fn spec_layout(self) -> CuseLayout {
        self.layout
    }

    /// The receive buffer length.
    pub closed spec fn spec_recv_buf_len(self) -> usize {
        self.recv_buf_len
    }

    /// The connection opened by the accepted init reply `reply` on `socket`.
    pub fn from_reply(socket: S, reply: &CuseInitResponse) -> (r: CuseConnection<S>)
        ensures
            r.spec_layout().spec_version_minor() == (reply.raw.minor as u16) as u32,
            r.spec_recv_buf_len() == spec_recv_buf_len(reply.raw.max_write),
            r.spec_socket() == socket,
    {
        CuseConnection {
            socket,
            layout: CuseLayout::with_version(reply.raw.minor as u16),
            recv_buf_len: recv_buf_len(reply.max_write()),
        }
    }

    /// The socket of this connection.
    pub fn socket(&self) -> (r: &S)
        ensures
            *r == self.spec_socket(),
    {
        &self.socket
    }

    /// The session layout.
    pub fn layout(&self) -> (r: CuseLayout)
        ensures
            r == self.spec_layout(),
    {
        self.layout
    }

    /// The smallest receive buffer that holds any request of this session.
    pub fn recv_buf_len(&self) -> (r: usize)
        ensures
            r == self.spec_recv_buf_len(),
    {
        self.recv_buf_len
    }
}

impl<S: CuseSocket> CuseConnection<S> {
    /// One round of the CUSE handshake on `socket`: receives a `CUSE_INIT`
    /// request, answers it as [`cuse_handshake`] does for `server`, and opens
    /// the session if the client's version allows. Each decision is made by
    /// [`cuse_init_received`], [`cuse_handshake`] and [`cuse_handshake_sent`]
    /// on what the socket gave back.
    pub fn try_connect(socket: S, server: &CuseServer) -> (r: Result<CuseHandshake<S>, ServerError<S::Error>>)
        ensures
            r matches Ok(CuseHandshake::Connected(c)) ==> {
                &&& c.spec_socket() == socket
                &&& c.spec_recv_buf_len() == spec_recv_buf_len(server.max_write)
                &&& exists|version: Version, flags: u32| spec_cuse_opened(c.spec_layout(), version, flags, *server)
            },
            r matches Ok(CuseHandshake::Retry(s)) ==> s == socket,
            exists|filled: Seq<u8>, recv: Result<usize, RecvError<S::Error>>|
                #[trigger] socket.spec_received(filled, recv) && spec_cuse_round(socket, filled, recv, *server, r),
    {
        let mut buf: Vec<u8> = vec![0u8; FUSE_MIN_READ_BUFFER];
        let recv = socket.recv(buf.as_mut_slice());
        let ghost filled = buf@;
        let ghost outcome = recv;
        let (request_id, init_req) = match cuse_init_received(buf.as_slice(), recv) {
            Ok(x) => x,
            Err(e) => {
                proof {
                    assert(socket.spec_received(filled, outcome));
                    assert(spec_cuse_round(socket, filled, outcome, *server, Err(e)));
                }
                return Err(e);
            },
        };
        let (reply, ok) = cuse_handshake(&init_req, server);
        let sent = reply.send_to(CuseReplySender::new(&socket, CuseLayout::latest(), request_id));
        let ghost sent_g = sent;
        let r = cuse_handshake_sent(socket, &reply, ok, sent);
        proof {
            assert(socket.spec_received(filled, outcome));
            let payload = spec_encode_cuse_init_out(reply.raw) + spec_device_info(reply.spec_device_name());
            assert(spec_reply_sent(
                &socket,
                request_id,
                payload,
                spec_reply_len(payload.len() as int, 0, 0, 0),
                sent_g,
            ));
            assert(spec_cuse_round_end(socket, reply.raw, ok, sent_g, r));
            match spec_cuse_init_received(filled, outcome) {
                Ok((h, version, flags)) => {
                    let hs = spec_cuse_handshake(
                        version,
                        flags,
                        server.flags.bits(),
                        server.max_read,
                        server.max_write,
                        server.device_number,
                    );
                    assert(request_id == h.unique);
                    assert(hs == (reply.raw, ok));
                    let payload2 = spec_cuse_reply_payload(hs.0, hs.1, *server);
                    assert(payload2 == payload);
                    assert(spec_reply_sent(
                        &socket,
                        h.unique,
                        payload2,
                        spec_reply_len(payload2.len() as int, 0, 0, 0),
                        sent_g,
                    ));
                    assert(spec_cuse_round_end(socket, hs.0, hs.1, sent_g, r));
                    assert(spec_cuse_round(socket, filled, outcome, *server, r));
                },
                Err(_) => {},
            }
            assert(r matches Ok(CuseHandshake::Connected(c)) ==> spec_cuse_opened(
                c.spec_layout(),
                init_req.spec_fields().0,
                init_req.spec_fields().1,
                *server,
            ));
        }
        r
    }

    /// Receives the next request into `buf`.
    pub fn recv<'a>(&self, buf: &'a mut [u8]) -> (r: Result<CuseRequest<'a>, ServerError<S::Error>>)
        ensures
            exists|recv: Result<usize, RecvError<S::Error>>|
                #[trigger] self.spec_socket().spec_received(final(buf)@, recv) && spec_cuse_received(
                    self.spec_layout(),
                    final(buf)@,
                    recv,
                    r,
                ),
            r matches Ok(req) ==> {
                &&& req.layout == self.spec_layout()
                &&& spec_request_in(final(buf)@, req.inner.spec_header(), req.inner.spec_bytes())
            },
            r matches Err(ServerError::RequestError(e)) ==> spec_request_error_in(final(buf)@, e),
            r matches Err(e) ==> e is RecvError || e is RequestError,
    {
        let recv = self.socket.recv(buf);
        let received: &'a [u8] = buf;
        let ghost outcome = recv;
        let r = cuse_received(self.layout, received, recv);
        proof {
            assert(self.spec_socket().spec_received(received@, outcome));
            assert(spec_cuse_received(self.spec_layout(), received@, outcome, r));
            match outcome {
                Ok(n) => {
                    let len = spec_received_len(n, received@.len() as usize) as int;
                    assert(spec_check_request(received@.subrange(0, len)) == spec_check_request(
                        received@.subrange(0, len),
                    ));
                },
                Err(_) => {},
            }
        }
        r
    }

    /// A sender for the reply to request `request_id`.
    pub fn reply(&self, request_id: u64) -> (r: CuseReplySender<'_, S>)
        requires
            request_id != 0,
        ensures
            r.inner.request_id == request_id,
    {
        CuseReplySender::new(&self.socket, self.layout, request_id)
    }
}

// }}}

// Serving {{{

/// What one serving step of a FUSE session at `layout` gives when its
/// receive left `buf` with the outcome `recv`: `false` once the client has
/// closed the connection, another socket error or a malformed request as an
/// error, and otherwise `true` after the request read from the buffer went
/// to the handler its opcode names.
pub open spec fn spec_fuse_serve_step<H: FuseHandlers, E>(
    handlers: &H,
    layout: FuseLayout,
    buf: Seq<u8>,
    recv: Result<usize, RecvError<E>>,
    r: Result<bool, ServerError<E>>,
) -> bool {
    match recv {
        Err(RecvError::ConnectionClosed(_)) => r == Ok::<bool, ServerError<E>>(false),
        Err(RecvError::Other(e)) => r == Err::<bool, ServerError<E>>(ServerError::RecvError(RecvError::Other(e))),
        Ok(n) => {
            let len = spec_received_len(n, buf.len() as usize);
            match spec_check_request(buf.subrange(0, len as int)) {
                Ok(()) => {
                    &&& r == Ok::<bool, ServerError<E>>(true)
                    &&& exists|req: FuseRequest<'static>|
                        {
                            &&& req.layout == layout
                            &&& req.inner.spec_header() == FuseInHeader::spec_parse(buf.subrange(0, len as int))
                            &&& req.inner.spec_bytes() == buf.subrange(0, req.inner.spec_header().len as int)
                            &&& #[trigger] spec_fuse_dispatched(handlers, req)
                        }
                },
                Err(e) => r == Err::<bool, ServerError<E>>(ServerError::RequestError(e)),
            }
        },
    }
}

/// What one serving step of a CUSE session at `layout` gives when its
/// receive left `buf` with the outcome `recv`: a socket error or a
/// malformed request as an error, and otherwise success after the request
/// read from the buffer went to the handler its opcode names.
pub open spec fn spec_cuse_serve_step<H: CuseHandlers, E>(
    handlers: &H,
    layout: CuseLayout,
    buf: Seq<u8>,
    recv: Result<usize, RecvError<E>>,
    r: Result<(), ServerError<E>>,
) -> bool {
    match recv {
        Err(e) => r == Err::<(), ServerError<E>>(ServerError::RecvError(e)),
        Ok(n) => {
            let len = spec_received_len(n, buf.len() as usize);
            match spec_check_request(buf.subrange(0, len as int)) {
                Ok(()) => {
                    &&& r == Ok::<(), ServerError<E>>(())
                    &&& exists|req: CuseRequest<'static>|
                        {
                            &&& req.layout == layout
                            &&& req.inner.spec_header() == FuseInHeader::spec_parse(buf.subrange(0, len as int))
                            &&& req.inner.spec_bytes() == buf.subrange(0, req.inner.spec_header().len as int)
                            &&& #[trigger] spec_cuse_dispatched(handlers, req)
                        }
                },
                Err(e) => r == Err::<(), ServerError<E>>(ServerError::RequestError(e)),
            }
        },
    }
}

/// One step of serving a FUSE session: receives a request into `buf` and
/// hands it to `handlers`. Returns `false` once the client has closed the
/// connection.
pub fn fuse_serve_one<S: FuseSocket, H: FuseHandlers>(
    conn: &FuseConnection<S>,
    handlers: &H,
    buf: &mut [u8],
) -> (r: Result<bool, ServerError<S::Error>>)
    ensures
        exists|recv: Result<usize, RecvError<S::Error>>|
            #[trigger] conn.spec_socket().spec_received(final(buf)@, recv) && spec_fuse_serve_step(
                handlers,
                conn.spec_layout(),
                final(buf)@,
                recv,
                r,
            ),
        r matches Ok(true) ==> exists|h: FuseInHeader, bytes: Seq<u8>| spec_request_in(final(buf)@, h, bytes),
        r matches Err(e) ==> e is RecvError || e is RequestError,
        r matches Err(ServerError::RequestError(e)) ==> spec_request_error_in(final(buf)@, e),
{
    let received = conn.recv(buf);
    let ghost got = received;
    let r = match received {
        Err(e) => Err(e),
        Ok(None) => Ok(false),
        Ok(Some(request)) => {
            handlers.dispatch(request);
            proof {
                assert(spec_fuse_dispatched(handlers, request));
            }
            Ok(true)
        },
    };
    proof {
        let w = choose|recv: Result<usize, RecvError<S::Error>>|
            #[trigger] conn.spec_socket().spec_received(final(buf)@, recv) && spec_fuse_received(
                conn.spec_layout(),
                final(buf)@,
                recv,
                got,
            );
        assert(spec_fuse_serve_step(handlers, conn.spec_layout(), final(buf)@, w, r));
    }
    r
}

/// One step of serving a CUSE session: receives a request into `buf` and
/// hands it to `handlers`.
pub fn cuse_serve_one<S: CuseSocket, H: CuseHandlers>(
    conn: &CuseConnection<S>,
    handlers: &H,
    buf: &mut [u8],
) -> (r: Result<(), ServerError<S::Error>>)
    ensures
        exists|recv: Result<usize, RecvError<S::Error>>|
            #[trigger] conn.spec_socket().spec_received(final(buf)@, recv) && spec_cuse_serve_step(
                handlers,
                conn.spec_layout(),
                final(buf)@,
                recv,
                r,
            ),
        r is Ok ==> exists|h: FuseInHeader, bytes: Seq<u8>| spec_request_in(final(buf)@, h, bytes),
        r matches Err(e) ==> e is RecvError || e is RequestError,
        r matches Err(ServerError::RequestError(e)) ==> spec_request_error_in(final(buf)@, e),
{
    let received = conn.recv(buf);
    let ghost got = received;
    let r = match received {
        Err(e) => Err(e),
        Ok(request) => {
            handlers.dispatch(request);
            proof {
                assert(spec_cuse_dispatched(handlers, request));
            }
            Ok(())
        },
    };
    proof {
        let w = choose|recv: Result<usize, RecvError<S::Error>>|
            #[trigger] conn.spec_socket().spec_received(final(buf)@, recv) && spec_cuse_received(
                conn.spec_layout(),
                final(buf)@,
                recv,
                got,
            );
        assert(spec_cuse_serve_step(handlers, conn.spec_layout(), final(buf)@, w, r));
    }
    r
}

// }}}

// Builders {{{

/// The handshake options of a CUSE server.
pub struct CuseServer<'a> {
    pub device_name: CuseDeviceName<'a>,
    pub device_number: CuseDeviceNumber,
    pub flags: CuseInitFlags,
    pub max_read: u32,
    pub max_write: u32,
}

impl<'a> CuseServer<'a> {
    /// A server for the device `device_name` numbered `device_number`, with
    /// no flags and no read or write limit set.
    pub fn new(device_name: CuseDeviceName<'a>, device_number: CuseDeviceNumber) -> (r: CuseServer<'a>)
        ensures
            r.device_name == device_name,
            r.device_number == device_number,
            r.flags.bits() == 0,
            r.max_read == 0,
            r.max_write == 0,
    {
        CuseServer { device_name, device_number, flags: CuseInitFlags::new(), max_read: 0, max_write: 0 }
    }

    /// One round of the handshake on `socket` with these options.
    pub fn try_connect<S: CuseSocket>(&self, socket: S) -> (r: Result<CuseHandshake<S>, ServerError<S::Error>>)
        ensures
            r matches Ok(CuseHandshake::Connected(c)) ==> {
                &&& c.spec_socket() == socket
                &&& c.spec_recv_buf_len() == spec_recv_buf_len(self.max_write)
                &&& exists|version: Version, flags: u32| spec_cuse_opened(c.spec_layout(), version, flags, *self)
            },
            r matches Ok(CuseHandshake::Retry(s)) ==> s == socket,
            exists|filled: Seq<u8>, recv: Result<usize, RecvError<S::Error>>|
                #[trigger] socket.spec_received(filled, recv) && spec_cuse_round(socket, filled, recv, *self, r),
    {
        CuseConnection::try_connect(socket, self)
    }

    /// Sets the largest read the client may send.
    pub fn max_read(&mut self, max_read: u32) -> (r: &mut Self)
        ensures
            *r == (CuseServer { max_read, ..*old(self) }),
            *final(self) == *final(r),
    {
        self.max_read = max_read;
        self
    }

    /// Sets the largest write the client may send.
    pub fn max_write(&mut self, max_write: u32) -> (r: &mut Self)
        ensures
            *r == (CuseServer { max_write, ..*old(self) }),
            *final(self) == *final(r),
    {
        self.max_write = max_write;
        self
    }

    /// Replaces the init flags the server offers.
    pub fn update_flags(&mut self, flags: CuseInitFlags) -> (r: &mut Self)
        ensures
            *r == (CuseServer { flags, ..*old(self) }),
            *final(self) == *final(r),
    {
        self.flags = flags;
        self
    }

    /// Offers the `UNRESTRICTED_IOCTL` init flag.
    pub fn enable_unrestricted_ioctl(&mut self) -> (r: &mut Self)
        ensures
            r.flags.bits() == old(self).flags.bits() | CuseInitFlag::UNRESTRICTED_IOCTL.spec_mask(),
            r.device_number == old(self).device_number,
            r.max_read == old(self).max_read,
            r.max_write == old(self).max_write,
            *final(self) == *final(r),
    {
        self.flags.set(CuseInitFlag::UNRESTRICTED_IOCTL);
        self
    }
}

/// The handshake options of a FUSE server.
pub struct FuseServer {
    pub init_reply: FuseInitResponse,
}

/// The size above which a server offers `BIG_WRITES`.
pub const BIG_WRITES_THRESHOLD: u32 = 4096;

impl FuseServer {
    /// A server with every tunable zero and no flags offered.
    pub fn new() -> (r: FuseServer)
        ensures
            r.init_reply.raw == FuseInitResponse::spec_new(),
    {
        FuseServer { init_reply: FuseInitResponse::new() }
    }

    /// One round of the handshake on `socket` with these options.
    pub fn try_connect<S: FuseSocket>(&self, socket: S) -> (r: Result<FuseHandshake<S>, ServerError<S::Error>>)
        ensures
            r matches Ok(FuseHandshake::Connected(c)) ==> {
                &&& c.spec_socket() == socket
                &&& c.spec_recv_buf_len() == spec_recv_buf_len(self.init_reply.raw.max_write)
                &&& exists|version: Version, flags: u32| spec_fuse_opened(
                    c.spec_layout(),
                    version,
                    flags,
                    self.init_reply.raw,
                )
            },
            r matches Ok(FuseHandshake::Retry(s)) ==> s == socket,
            exists|filled: Seq<u8>, recv: Result<usize, RecvError<S::Error>>|
                #[trigger] socket.spec_received(filled, recv) && spec_fuse_round(
                    socket,
                    filled,
                    recv,
                    self.init_reply.raw,
                    r,
                ),
    {
        FuseConnection::try_connect(socket, &self.init_reply)
    }

    /// Sets the number of background requests at which the client is
    /// congested.
    pub fn congestion_threshold(&mut self, congestion_threshold: u16) -> (r: &mut Self)
        ensures
            r.init_reply.raw == (FuseInitOut { congestion_threshold, ..old(self).init_reply.raw }),
            *final(self) == *final(r),
    {
        self.init_reply.set_congestion_threshold(congestion_threshold);
        self
    }

    /// Sets the number of background requests the client may queue.
    pub fn max_background(&mut self, max_background: u16) -> (r: &mut Self)
        ensures
            r.init_reply.raw == (FuseInitOut { max_background, ..old(self).init_reply.raw }),
            *final(self) == *final(r),
    {
        self.init_reply.set_max_background(max_background);
        self
    }

    /// Sets the client's read-ahead limit.
    pub fn max_readahead(&mut self, max_readahead: u32) -> (r: &mut Self)
        ensures
            r.init_reply.raw == (FuseInitOut { max_readahead, ..old(self).init_reply.raw }),
            *final(self) == *final(r),
    {
        self.init_reply.set_max_readahead(max_readahead);
        self
    }

    /// Sets the largest write the client may send; above 4096 bytes this
    /// also offers `BIG_WRITES`.
    pub fn max_write(&mut self, max_write: u32) -> (r: &mut Self)
        ensures
            r.init_reply.raw == (FuseInitOut {
                max_write,
                flags: if max_write > BIG_WRITES_THRESHOLD {
                    old(self).init_reply.raw.flags | FuseInitFlag::BIG_WRITES.spec_mask()
                } else {
                    old(self).init_reply.raw.flags
                },
                ..old(self).init_reply.raw
            }),
            *final(self) == *final(r),
    {
        self.init_reply.set_max_write(max_write);
        if max_write > BIG_WRITES_THRESHOLD {
            self.init_reply.set_flag(FuseInitFlag::BIG_WRITES);
        }
        self
    }

    /// Sets the granularity of timestamps, in nanoseconds.
    pub fn time_granularity(&mut self, time_granularity: u32) -> (r: &mut Self)
        ensures
            r.init_reply.raw == (FuseInitOut { time_gran: time_granularity, ..old(self).init_reply.raw }),
            *final(self) == *final(r),
    {
        self.init_reply.set_time_granularity(time_granularity);
        self
    }

    /// Replaces the init flags the server offers.
    pub fn update_flags(&mut self, flags: FuseInitFlags) -> (r: &mut Self)
        ensures
            r.init_reply.raw == (FuseInitOut { flags: flags.bits(), ..old(self).init_reply.raw }),
            *final(self) == *final(r),
    {
        self.init_reply.set_flags(flags);
        self
    }
}

// }}}

} // verus!
