//! CUSE and FUSE servers: session layouts, requests as received, and the
//! rules of the connection handshake.

use vstd::prelude::*;

pub mod cuse_rpc;
pub mod dispatch;
pub mod fuse_rpc;
pub mod session;

use crate::decode::{spec_check_request, Request, RequestDecoder};
use crate::encode::{encode_reply, error_reply, spec_reply, spec_reply_len, MAX_REPLY_LEN};
use crate::error::{Error, RequestError};
use crate::kernel::{
    CuseInitOut,
    FuseInHeader,
    FuseInitOut,
    FUSE_IN_HEADER_SIZE,
    FUSE_KERNEL_MINOR_VERSION,
    FUSE_KERNEL_VERSION,
    FUSE_MIN_READ_BUFFER,
    FUSE_SETXATTR_EXT,
};

verus! {

// Errors {{{

/// Errors that may be encountered when receiving a request.
#[derive(Clone, Copy, Debug, PartialEq, Eq)]
pub enum RecvError<IoError> {
    /// The connection has been cleanly closed by the client.
    ConnectionClosed(IoError),
    /// The socket encountered an error not otherwise specified.
    Other(IoError),
}

/// Errors that may be encountered when sending a reply.
#[derive(Clone, Copy, Debug, PartialEq, Eq)]
pub enum SendError<IoError> {
    /// The reply's original request has been forgotten by the client.
    ///
    /// The server should treat this as a non-fatal error.
    NotFound(IoError),
    /// The reply's size would exceed the FUSE protocol's maximum limit of
    /// `u32::MAX` bytes.
    ReplyTooBig(u64),
    /// The socket encountered an error not otherwise specified.
    Other(IoError),
}

/// Errors that may be encountered by a CUSE or FUSE server.
#[derive(Clone, Copy, Debug, PartialEq, Eq)]
pub enum ServerError<IoError> {
    /// An invalid request was received from the client.
    RequestError(RequestError),
    /// The socket encountered an I/O error when receiving the next request.
    RecvError(RecvError<IoError>),
    /// The socket encountered an I/O error when sending a reply.
    SendError(SendError<IoError>),
}

/// Whether a server error ends a serving loop: only an invalid request is
/// survivable.
pub fn fatal_error<E>(err: &ServerError<E>) -> (r: bool)
    ensures
        r == !(err is RequestError),
{
    match err {
        ServerError::RequestError(_) => false,
        _ => true,
    }
}

/// Errors building a session layout from an init reply.
#[derive(Clone, Copy, Debug, PartialEq, Eq, Structural)]
pub enum LayoutError {
    /// The init reply names a protocol version this library does not speak.
    UnsupportedVersion,
}

// }}}

// Version {{{

/// A FUSE protocol version.
#[derive(Clone, Copy, Debug, PartialEq, Eq, Structural)]
pub struct Version {
    pub major: u32,
    pub minor: u32,
}

impl Version {
    /// The version `major.minor`.
    pub fn new(major: u32, minor: u32) -> (r: Version)
        ensures
            r == (Version { major, minor }),
    {
        Version { major, minor }
    }

    /// The latest version this library implements.
    pub fn latest() -> (r: Version)
        ensures
            r == (Version { major: FUSE_KERNEL_VERSION, minor: FUSE_KERNEL_MINOR_VERSION }),
    {
        Version { major: FUSE_KERNEL_VERSION, minor: FUSE_KERNEL_MINOR_VERSION }
    }

    /// The major version.
    pub fn major(&self) -> (r: u32)
        ensures
            r == self.major,
    {
        self.major
    }

    /// The minor version.
    pub fn minor(&self) -> (r: u32)
        ensures
            r == self.minor,
    {
        self.minor
    }
}

/// The version a session runs at when the client offers `kernel`: the same
/// major version, and the lower of the two minor versions. A client with
/// another major version gets no session.
pub open spec fn spec_negotiate_version(kernel: Version) -> Option<Version> {
    if kernel.major != FUSE_KERNEL_VERSION {
        None
    } else {
        Some(
            Version {
                major: FUSE_KERNEL_VERSION,
                minor: if kernel.minor < FUSE_KERNEL_MINOR_VERSION {
                    kernel.minor
                } else {
                    FUSE_KERNEL_MINOR_VERSION
                },
            },
        )
    }
}

/// Chooses the version of a session from the version the client offers.
pub fn negotiate_version(kernel: Version) -> (r: Option<Version>)
    ensures
        r == spec_negotiate_version(kernel),
{
    let latest = Version::latest();
    if kernel.major() != latest.major() {
        return None;
    }
    let minor = if kernel.minor() < latest.minor() {
        kernel.minor()
    } else {
        latest.minor()
    };
    Some(Version::new(latest.major(), minor))
}

/// The size of the per-request header area in a receive buffer.
pub const FUSE_BUFFER_HEADER_SIZE: usize = 4096;

/// The receive buffer length for a session whose largest write is
/// `max_write` bytes: room for that write plus its headers, and never less
/// than the minimum read buffer.
pub open spec fn spec_recv_buf_len(max_write: u32) -> int {
    let want = if max_write + FUSE_BUFFER_HEADER_SIZE > usize::MAX {
        usize::MAX as int
    } else {
        max_write + FUSE_BUFFER_HEADER_SIZE
    };
    if want > FUSE_MIN_READ_BUFFER {
        want
    } else {
        FUSE_MIN_READ_BUFFER as int
    }
}

/// Computes the receive buffer length for a session.
pub fn recv_buf_len(max_write: u32) -> (r: usize)
    ensures
        r == spec_recv_buf_len(max_write),
{
    let want = (max_write as usize).saturating_add(FUSE_BUFFER_HEADER_SIZE);
    if want > FUSE_MIN_READ_BUFFER {
        want
    } else {
        FUSE_MIN_READ_BUFFER
    }
}

// }}}

// Layouts {{{

/// The layout of a CUSE session: the protocol minor version in effect.
#[derive(Clone, Copy, Debug, PartialEq, Eq, Structural)]
pub struct CuseLayout {
    version_minor: u16,
}

/// Whether an init reply names a version this library speaks.
pub open spec fn spec_supported_version(major: u32, minor: u32) -> bool {
    major == FUSE_KERNEL_VERSION && minor <= FUSE_KERNEL_MINOR_VERSION
}

impl CuseLayout {
    /// The minor version of the session.
    pub closed spec fn spec_version_minor(self) -> u32 {
        self.version_minor as u32
    }

    /// The layout of a session set up by the reply `init_out`.
    pub fn new(init_out: &CuseInitOut) -> (r: Result<CuseLayout, LayoutError>)
        ensures
            r is Ok <==> spec_supported_version(init_out.major, init_out.minor),
            r matches Ok(l) ==> l.spec_version_minor() == init_out.minor,
    {
        if init_out.major != FUSE_KERNEL_VERSION {
            return Err(LayoutError::UnsupportedVersion);
        }
        if init_out.minor > FUSE_KERNEL_MINOR_VERSION {
            return Err(LayoutError::UnsupportedVersion);
        }
        Ok(CuseLayout { version_minor: init_out.minor as u16 })
    }

    /// The layout of a session at minor version `version_minor`.
    pub fn with_version(version_minor: u16) -> (r: CuseLayout)
        ensures
            r.spec_version_minor() == version_minor,
    {
        CuseLayout { version_minor }
    }

    /// The layout of a session at the latest version.
    pub fn latest() -> (r: CuseLayout)
        ensures
            r.spec_version_minor() == FUSE_KERNEL_MINOR_VERSION,
    {
        CuseLayout { version_minor: FUSE_KERNEL_MINOR_VERSION as u16 }
    }

    /// The minor version of the session.
    pub fn version_minor(&self) -> (r: u32)
        ensures
            r == self.spec_version_minor(),
    {
        self.version_minor as u32
    }
}

/// The layout of a FUSE session: the protocol minor version in effect and
/// the optional features that change how requests are laid out.
#[derive(Clone, Copy, Debug, PartialEq, Eq, Structural)]
pub struct FuseLayout {
    version_minor: u16,
    features: u16,
}

/// Feature bit: `FUSE_SETXATTR` requests carry the extended header.
pub const FEATURE_SETXATTR_EXT: u16 = 1;

impl FuseLayout {
    /// The minor version of the session.
    pub closed spec fn spec_version_minor(self) -> u32 {
        self.version_minor as u32
    }

    /// Whether `FUSE_SETXATTR` requests carry the extended header.
    pub closed spec fn spec_setxattr_ext(self) -> bool {
        self.features & FEATURE_SETXATTR_EXT != 0
    }

    /// The layout of a session set up by the reply `init_out`.
    pub fn new(init_out: &FuseInitOut) -> (r: Result<FuseLayout, LayoutError>)
        ensures
            r is Ok <==> spec_supported_version(init_out.major, init_out.minor),
            r matches Ok(l) ==> l.spec_version_minor() == init_out.minor && l.spec_setxattr_ext()
                == (init_out.flags & FUSE_SETXATTR_EXT != 0),
    {
        if init_out.major != FUSE_KERNEL_VERSION {
            return Err(LayoutError::UnsupportedVersion);
        }
        if init_out.minor > FUSE_KERNEL_MINOR_VERSION {
            return Err(LayoutError::UnsupportedVersion);
        }
        Ok(FuseLayout::new2(init_out))
    }

    /// The layout of a session set up by `init_out`, without checking its
    /// version.
    pub fn new2(init_out: &FuseInitOut) -> (r: FuseLayout)
        ensures
            r.spec_version_minor() == (init_out.minor as u16) as u32,
            r.spec_setxattr_ext() == (init_out.flags & FUSE_SETXATTR_EXT != 0),
    {
        let features: u16 = if init_out.flags & FUSE_SETXATTR_EXT != 0 {
            FEATURE_SETXATTR_EXT
        } else {
            0
        };
        proof {
            assert(0u16 & 1u16 == 0u16) by (bit_vector);
            assert(1u16 & 1u16 == 1u16) by (bit_vector);
        }
        FuseLayout { version_minor: init_out.minor as u16, features }
    }

    /// The layout of a session at the latest version, without optional
    /// features.
    pub fn latest() -> (r: FuseLayout)
        ensures
            r.spec_version_minor() == FUSE_KERNEL_MINOR_VERSION,
            !r.spec_setxattr_ext(),
    {
        proof {
            assert(0u16 & 1u16 == 0u16) by (bit_vector);
        }
        FuseLayout { version_minor: FUSE_KERNEL_MINOR_VERSION as u16, features: 0 }
    }

    /// The layout of a session at minor version `version_minor`, with or
    /// without the extended `FUSE_SETXATTR` header.
    pub fn with_version(version_minor: u16, setxattr_ext: bool) -> (r: FuseLayout)
        ensures
            r.spec_version_minor() == version_minor,
            r.spec_setxattr_ext() == setxattr_ext,
    {
        proof {
            assert(0u16 & 1u16 == 0u16) by (bit_vector);
            assert(1u16 & 1u16 == 1u16) by (bit_vector);
        }
        FuseLayout { version_minor, features: if setxattr_ext { FEATURE_SETXATTR_EXT } else { 0 } }
    }

    /// The minor version of the session.
    pub fn version_minor(&self) -> (r: u32)
        ensures
            r == self.spec_version_minor(),
    {
        self.version_minor as u32
    }

    /// Whether `FUSE_SETXATTR` requests carry the extended header.
    pub fn have_setxattr_ext(&self) -> (r: bool)
        ensures
            r == self.spec_setxattr_ext(),
    {
        self.features & FEATURE_SETXATTR_EXT != 0
    }
}

// }}}

// Requests {{{

/// A request received on a CUSE session.
#[derive(Clone, Copy)]
pub struct CuseRequest<'a> {
    pub inner: Request<'a>,
    pub layout: CuseLayout,
}

impl<'a> CuseRequest<'a> {
    /// Validates a received buffer as a request of a CUSE session.
    pub fn new(buf: &'a [u8], layout: CuseLayout) -> (r: Result<CuseRequest<'a>, RequestError>)
        ensures
            r is Ok <==> spec_check_request(buf@) is Ok,
            r matches Err(e) ==> spec_check_request(buf@) == Err::<(), _>(e),
            r matches Ok(req) ==> {
                &&& req.inner.spec_header() == FuseInHeader::spec_parse(buf@)
                &&& req.inner.spec_bytes() == buf@.subrange(0, req.inner.spec_header().len as int)
                &&& req.layout == layout
            },
    {
        let inner = Request::new(buf)?;
        Ok(CuseRequest { inner, layout })
    }

    /// The request bytes, as many as the header announces.
    pub fn as_bytes(&self) -> (r: &'a [u8])
        ensures
            r@ == self.inner.spec_bytes(),
    {
        self.inner.as_bytes()
    }

    /// The request header.
    pub fn header(&self) -> (r: FuseInHeader)
        ensures
            r == self.inner.spec_header(),
    {
        self.inner.header()
    }

    /// The request ID; never zero.
    pub fn id(&self) -> (r: u64)
        ensures
            r == self.inner.spec_header().unique,
            r != 0,
    {
        self.inner.request_id()
    }

    /// The request body: the bytes after the header.
    pub fn body(&self) -> (r: &'a [u8])
        requires
            self.inner.spec_header().len >= FUSE_IN_HEADER_SIZE,
        ensures
            r@ == self.inner.spec_bytes().subrange(
                FUSE_IN_HEADER_SIZE as int,
                self.inner.spec_bytes().len() as int,
            ),
    {
        self.inner.body()
    }

    /// A decoder positioned at the start of the body.
    pub fn decoder(&self) -> (d: RequestDecoder<'a>)
        ensures
            d.spec_header() == self.inner.spec_header(),
            d.spec_bytes() == self.inner.spec_bytes(),
            d.spec_consumed() == FUSE_IN_HEADER_SIZE,
    {
        self.inner.decoder()
    }
}

/// A request received on a FUSE session.
#[derive(Clone, Copy)]
pub struct FuseRequest<'a> {
    pub inner: Request<'a>,
    pub layout: FuseLayout,
}

impl<'a> FuseRequest<'a> {
    /// Validates a received buffer as a request of a FUSE session.
    pub fn new(buf: &'a [u8], layout: FuseLayout) -> (r: Result<FuseRequest<'a>, RequestError>)
        ensures
            r is Ok <==> spec_check_request(buf@) is Ok,
            r matches Err(e) ==> spec_check_request(buf@) == Err::<(), _>(e),
            r matches Ok(req) ==> {
                &&& req.inner.spec_header() == FuseInHeader::spec_parse(buf@)
                &&& req.inner.spec_bytes() == buf@.subrange(0, req.inner.spec_header().len as int)
                &&& req.layout == layout
            },
    {
        let inner = Request::new(buf)?;
        Ok(FuseRequest { inner, layout })
    }

    /// The request bytes, as many as the header announces.
    pub fn as_bytes(&self) -> (r: &'a [u8])
        ensures
            r@ == self.inner.spec_bytes(),
    {
        self.inner.as_bytes()
    }

    /// The request header.
    pub fn header(&self) -> (r: FuseInHeader)
        ensures
            r == self.inner.spec_header(),
    {
        self.inner.header()
    }

    /// The request ID; never zero.
    pub fn id(&self) -> (r: u64)
        ensures
            r == self.inner.spec_header().unique,
            r != 0,
    {
        self.inner.request_id()
    }

    /// The request body: the bytes after the header.
    pub fn body(&self) -> (r: &'a [u8])
        requires
            self.inner.spec_header().len >= FUSE_IN_HEADER_SIZE,
        ensures
            r@ == self.inner.spec_bytes().subrange(
                FUSE_IN_HEADER_SIZE as int,
                self.inner.spec_bytes().len() as int,
            ),
    {
        self.inner.body()
    }

    /// A decoder positioned at the start of the body.
    pub fn decoder(&self) -> (d: RequestDecoder<'a>)
        ensures
            d.spec_header() == self.inner.spec_header(),
            d.spec_bytes() == self.inner.spec_bytes(),
            d.spec_consumed() == FUSE_IN_HEADER_SIZE,
    {
        self.inner.decoder()
    }
}

// }}}

// Sockets {{{

/// Trait for sockets that can receive requests and send replies.
pub trait Socket {
    /// Type of errors that may be returned from this socket's I/O methods.
    type Error;

    /// Receive a single serialised request from the client.
    ///
    /// The buffer must be large enough to contain any request that might be
    /// received for the current session's negotiated maximum message size.
    fn recv(&self, buf: &mut [u8]) -> (r: Result<usize, RecvError<Self::Error>>)
        ensures
            self.spec_received(final(buf)@, r);

    /// Whether `r` is an outcome this socket gives for a receive that leaves
    /// the buffer holding `filled`; each socket says for itself what its
    /// receives do, and by default nothing is said.
    open spec fn spec_received(&self, filled: Seq<u8>, r: Result<usize, RecvError<Self::Error>>) -> bool {
        true
    }

    /// Whether `r` is an outcome this socket gives for sending the message
    /// `msg`; each socket says for itself what its sends do, and by default
    /// nothing is said.
    open spec fn spec_sent(&self, msg: Seq<u8>, r: Result<(), SendError<Self::Error>>) -> bool {
        true
    }

    /// Send a single serialised reply to the client.
    fn send(&self, buf: &[u8]) -> (r: Result<(), SendError<Self::Error>>)
        ensures
            self.spec_sent(buf@, r);
}

/// Marker trait for CUSE sockets.
pub trait CuseSocket: Socket {

}

/// Marker trait for FUSE sockets.
pub trait FuseSocket: Socket {

}

// }}}

// Reply senders {{{

/// What sending a successful reply to request `unique` whose payload is
/// `payload` gives, where `len` is the reply's length: a reply the protocol
/// cannot carry is refused with its length and not sent; any other is
/// handed to `socket` as one message, header then payload, and the outcome
/// of that send is returned.
pub open spec fn spec_reply_sent<S: Socket>(
    socket: &S,
    unique: u64,
    payload: Seq<u8>,
    len: int,
    r: Result<(), SendError<S::Error>>,
) -> bool {
    if len > MAX_REPLY_LEN {
        r == Err::<(), SendError<S::Error>>(SendError::ReplyTooBig(len as u64))
    } else {
        socket.spec_sent(spec_reply(unique, 0, payload), r)
    }
}

/// Sends the reply to one request.
pub struct ReplySender<'a, S> {
    pub socket: &'a S,
    pub request_id: u64,
}

impl<'a, S: Socket> ReplySender<'a, S> {
    /// Sends a reply carrying only the error code `error`.
    pub fn send_0(self, error: i32) -> (r: Result<(), SendError<S::Error>>)
        ensures
            self.socket.spec_sent(spec_reply(self.request_id, error, Seq::empty()), r),
    {
        let reply = error_reply(self.request_id, error);
        self.socket.send(reply.as_slice())
    }

    /// Sends a successful reply with the payload `bytes_1`; a reply the
    /// protocol cannot carry is refused with its length.
    pub fn send_1(self, bytes_1: &[u8]) -> (r: Result<(), SendError<S::Error>>)
        ensures
            spec_reply_sent(
                self.socket,
                self.request_id,
                bytes_1@,
                spec_reply_len(bytes_1@.len() as int, 0, 0, 0),
                r,
            ),
    {
        let empty: [u8; 0] = [];
        self.send_4(bytes_1, empty.as_slice(), empty.as_slice(), empty.as_slice())
    }

    /// Sends a successful reply whose payload is `bytes_1` then `bytes_2`.
    pub fn send_2(self, bytes_1: &[u8], bytes_2: &[u8]) -> (r: Result<(), SendError<S::Error>>)
        ensures
            spec_reply_sent(
                self.socket,
                self.request_id,
                bytes_1@ + bytes_2@,
                spec_reply_len(bytes_1@.len() as int, bytes_2@.len() as int, 0, 0),
                r,
            ),
    {
        let empty: [u8; 0] = [];
        self.send_4(bytes_1, bytes_2, empty.as_slice(), empty.as_slice())
    }

    /// Sends a successful reply whose payload is `bytes_1` to `bytes_3`.
    pub fn send_3(self, bytes_1: &[u8], bytes_2: &[u8], bytes_3: &[u8]) -> (r: Result<
        (),
        SendError<S::Error>,
    >)
        ensures
            spec_reply_sent(
                self.socket,
                self.request_id,
                bytes_1@ + bytes_2@ + bytes_3@,
                spec_reply_len(bytes_1@.len() as int, bytes_2@.len() as int, bytes_3@.len() as int, 0),
                r,
            ),
    {
        let empty: [u8; 0] = [];
        self.send_4(bytes_1, bytes_2, bytes_3, empty.as_slice())
    }

    /// Sends a successful reply whose payload is `bytes_1` to `bytes_4`.
    pub fn send_4(self, bytes_1: &[u8], bytes_2: &[u8], bytes_3: &[u8], bytes_4: &[u8]) -> (r: Result<
        (),
        SendError<S::Error>,
    >)
        ensures
            spec_reply_sent(
                self.socket,
                self.request_id,
                bytes_1@ + bytes_2@ + bytes_3@ + bytes_4@,
                spec_reply_len(bytes_1@.len() as int, bytes_2@.len() as int, bytes_3@.len() as int, bytes_4@.len() as int),
                r,
            ),
    {
        match encode_reply(self.request_id, bytes_1, bytes_2, bytes_3, bytes_4) {
            Ok(reply) => self.socket.send(reply.as_slice()),
            Err(len) => Err(SendError::ReplyTooBig(len)),
        }
    }
}

/// Sends the reply to one request of a CUSE session.
pub struct CuseReplySender<'a, S> {
    pub inner: ReplySender<'a, S>,
}

impl<'a, S: CuseSocket> CuseReplySender<'a, S> {
    /// A sender of the reply to request `request_id` on `socket`.
    pub fn new(socket: &'a S, layout: CuseLayout, request_id: u64) -> (r: CuseReplySender<'a, S>)
        requires
            request_id != 0,
        ensures
            r.inner.request_id == request_id,
            r.inner.socket == socket,
    {
        CuseReplySender { inner: ReplySender { socket, request_id } }
    }

    /// Send a successful reply to the CUSE client.
    pub fn ok(self, reply: &impl CuseReply) -> (r: Result<(), SendError<S::Error>>)
        ensures
            spec_reply_sent(
                self.inner.socket,
                self.inner.request_id,
                reply.spec_payload(),
                spec_reply_len(reply.spec_payload().len() as int, 0, 0, 0),
                r,
            ),
    {
        reply.send_to(self)
    }

    /// Send a successful reply (containing arbitrary data) to the CUSE client.
    pub fn ok_buf(self, buf: &[u8]) -> (r: Result<(), SendError<S::Error>>)
        ensures
            spec_reply_sent(
                self.inner.socket,
                self.inner.request_id,
                buf@,
                spec_reply_len(buf@.len() as int, 0, 0, 0),
                r,
            ),
    {
        self.inner.send_1(buf)
    }

    /// Send a successful empty reply to the CUSE client.
    pub fn ok_empty(self) -> (r: Result<(), SendError<S::Error>>)
        ensures
            self.inner.socket.spec_sent(spec_reply(self.inner.request_id, 0, Seq::empty()), r),
    {
        self.inner.send_0(0)
    }

    /// Send an error reply to the CUSE client.
    pub fn err(self, error: Error) -> (r: Result<(), SendError<S::Error>>)
        ensures
            self.inner.socket.spec_sent(spec_reply(self.inner.request_id, error.spec_code(), Seq::empty()), r),
    {
        self.inner.send_0(error.raw_fuse_error_code())
    }
}

/// Sends the reply to one request of a FUSE session.
pub struct FuseReplySender<'a, S> {
    pub inner: ReplySender<'a, S>,
    pub layout: FuseLayout,
}

impl<'a, S: FuseSocket> FuseReplySender<'a, S> {
    /// A sender of the reply to request `request_id` on `socket`.
    pub fn new(socket: &'a S, layout: FuseLayout, request_id: u64) -> (r: FuseReplySender<'a, S>)
        requires
            request_id != 0,
        ensures
            r.inner.request_id == request_id,
            r.inner.socket == socket,
            r.layout == layout,
    {
        FuseReplySender { inner: ReplySender { socket, request_id }, layout }
    }

    /// Send a successful reply to the FUSE client.
    pub fn ok(self, reply: &impl FuseReply) -> (r: Result<(), SendError<S::Error>>)
        ensures
            spec_reply_sent(
                self.inner.socket,
                self.inner.request_id,
                reply.spec_payload(self.layout),
                spec_reply_len(reply.spec_payload(self.layout).len() as int, 0, 0, 0),
                r,
            ),
    {
        reply.send_to(self)
    }

    /// Send a successful reply (containing arbitrary data) to the FUSE client.
    pub fn ok_buf(self, buf: &[u8]) -> (r: Result<(), SendError<S::Error>>)
        ensures
            spec_reply_sent(
                self.inner.socket,
                self.inner.request_id,
                buf@,
                spec_reply_len(buf@.len() as int, 0, 0, 0),
                r,
            ),
    {
        self.inner.send_1(buf)
    }

    /// Send a successful empty reply to the FUSE client.
    pub fn ok_empty(self) -> (r: Result<(), SendError<S::Error>>)
        ensures
            self.inner.socket.spec_sent(spec_reply(self.inner.request_id, 0, Seq::empty()), r),
    {
        self.inner.send_0(0)
    }

    /// Send an error reply to the FUSE client.
    pub fn err(self, error: Error) -> (r: Result<(), SendError<S::Error>>)
        ensures
            self.inner.socket.spec_sent(spec_reply(self.inner.request_id, error.spec_code(), Seq::empty()), r),
    {
        self.inner.send_0(error.raw_fuse_error_code())
    }
}

/// A reply that can be sent on a CUSE session.
pub trait CuseReply {
    /// The payload this reply carries.
    spec fn spec_payload(&self) -> Seq<u8>;

    /// Sends this reply with `reply_sender`: the payload goes to the socket
    /// as one message after its header, unless the protocol cannot carry it.
    fn send_to<S: CuseSocket>(&self, reply_sender: CuseReplySender<'_, S>) -> (r: Result<
        (),
        SendError<S::Error>,
    >)
        ensures
            spec_reply_sent(
                reply_sender.inner.socket,
                reply_sender.inner.request_id,
                self.spec_payload(),
                spec_reply_len(self.spec_payload().len() as int, 0, 0, 0),
                r,
            ),
    ;
}

/// A reply that can be sent on a FUSE session.
pub trait FuseReply {
    /// The payload this reply carries on a session with layout `layout`.
    spec fn spec_payload(&self, layout: FuseLayout) -> Seq<u8>;

    /// Sends this reply with `reply_sender`: the payload for the sender's
    /// layout goes to the socket as one message after its header, unless the
    /// protocol cannot carry it.
    fn send_to<S: FuseSocket>(&self, reply_sender: FuseReplySender<'_, S>) -> (r: Result<
        (),
        SendError<S::Error>,
    >)
        ensures
            spec_reply_sent(
                reply_sender.inner.socket,
                reply_sender.inner.request_id,
                self.spec_payload(reply_sender.layout),
                spec_reply_len(self.spec_payload(reply_sender.layout).len() as int, 0, 0, 0),
                r,
            ),
    ;
}

// }}}

} // verus!
