use std::cell::RefCell;

use fuse::error::Error;
use fuse::kernel::{CUSE_INIT, FUSE_INIT, FUSE_STATFS, FUSE_SYNCFS};
use fuse::operations::cuse_init::{CuseDeviceName, CuseDeviceNumber};
use fuse::operations::fuse_init::{FuseInitFlag, FuseInitFlags};
use fuse::operations::statfs::{StatfsRequest, StatfsResponse};
use fuse::server::dispatch::{fuse_route, FuseHandler, FuseHandlers, Hooks};
use fuse::server::fuse_rpc::{dispatch_outcome, rpc_route, Call, Dispatcher, Handlers, RpcRoute, SendResult};
use fuse::error::RequestError;
use fuse::operations::fuse_init::FuseInitResponse;
use fuse::server::session::{
    fuse_handshake_sent, fuse_handshake_with, fuse_init_received, fuse_serve_one, CuseHandshake, CuseServer, FuseConnection,
    FuseHandshake, FuseServer,
};
use fuse::server::ServerError;
use fuse::server::{
    negotiate_version, recv_buf_len, CuseSocket, FuseLayout, FuseRequest, FuseSocket, RecvError,
    SendError, Socket, Version,
};

use fuse::node_name::NodeName;
use fuse::operations::readlink::ReadlinkResponse;
use fuse::server::{FuseReply, FuseReplySender};

const UNIQUE: u64 = 0xAABBCCDD;

fn message(opcode: u32, nodeid: u64, body: &[u8]) -> Vec<u8> {
    let mut v: Vec<u8> = Vec::new();
    v.extend_from_slice(&((40 + body.len()) as u32).to_le_bytes());
    v.extend_from_slice(&opcode.to_le_bytes());
    v.extend_from_slice(&UNIQUE.to_le_bytes());
    v.extend_from_slice(&nodeid.to_le_bytes());
    v.extend_from_slice(&[0u8; 16]);
    v.extend_from_slice(body);
    v
}

/// A socket that hands out scripted requests and records what is sent.
struct ScriptSocket {
    incoming: RefCell<Vec<Vec<u8>>>,
    sent: RefCell<Vec<Vec<u8>>>,
}

impl ScriptSocket {
    fn new(incoming: Vec<Vec<u8>>) -> ScriptSocket {
        let mut incoming = incoming;
        incoming.reverse();
        ScriptSocket { incoming: RefCell::new(incoming), sent: RefCell::new(Vec::new()) }
    }
}

impl Socket for ScriptSocket {
    type Error = ();

    fn recv(&self, buf: &mut [u8]) -> Result<usize, RecvError<()>> {
        match self.incoming.borrow_mut().pop() {
            Some(msg) => {
                buf[..msg.len()].copy_from_slice(&msg);
                Ok(msg.len())
            },
            None => Err(RecvError::ConnectionClosed(())),
        }
    }

    fn send(&self, buf: &[u8]) -> Result<(), SendError<()>> {
        self.sent.borrow_mut().push(buf.to_vec());
        Ok(())
    }
}

impl FuseSocket for ScriptSocket {}

impl CuseSocket for ScriptSocket {}

fn fuse_init(major: u32, minor: u32, flags: u32) -> Vec<u8> {
    let mut body: Vec<u8> = Vec::new();
    body.extend_from_slice(&major.to_le_bytes());
    body.extend_from_slice(&minor.to_le_bytes());
    body.extend_from_slice(&4096u32.to_le_bytes());
    body.extend_from_slice(&flags.to_le_bytes());
    message(FUSE_INIT, 0, &body)
}

fn u32_at(b: &[u8], off: usize) -> u32 {
    u32::from_le_bytes([b[off], b[off + 1], b[off + 2], b[off + 3]])
}

#[test]
fn negotiate_version_takes_lower_minor() {
    assert_eq!(negotiate_version(Version::new(7, 10)), Some(Version::new(7, 10)));
    assert_eq!(negotiate_version(Version::new(7, 99)), Some(Version::latest()));
    assert_eq!(negotiate_version(Version::new(8, 1)), None);
}

#[test]
fn recv_buf_len_has_room_for_writes() {
    assert_eq!(recv_buf_len(0), 8192);
    assert_eq!(recv_buf_len(4096), 8192);
    assert_eq!(recv_buf_len(131072), 131072 + 4096);
}

#[test]
fn fuse_handshake_opens_session() {
    let mut server = FuseServer::new();
    server.max_write(65536);
    server.update_flags(FuseInitFlags::from_bits(FuseInitFlag::BIG_WRITES.mask() | FuseInitFlag::ASYNC_READ.mask()));
    let socket = ScriptSocket::new(vec![fuse_init(7, 20, FuseInitFlag::BIG_WRITES.mask())]);
    let conn = match server.try_connect(socket).unwrap() {
        FuseHandshake::Connected(c) => c,
        FuseHandshake::Retry(_) => panic!("handshake refused"),
    };
    assert_eq!(conn.layout().version_minor(), 20);
    assert_eq!(conn.recv_buf_len(), 65536 + 4096);

    let sent = conn.socket().sent.borrow().clone();
    assert_eq!(sent.len(), 1);
    let reply = &sent[0];
    // Header: 16 bytes, then a 24-byte reply for protocol 7.20.
    assert_eq!(reply.len(), 16 + 24);
    assert_eq!(u32_at(reply, 0), 40);
    assert_eq!(u64::from_le_bytes(reply[8..16].try_into().unwrap()), UNIQUE);
    assert_eq!(u32_at(reply, 16), 7);
    assert_eq!(u32_at(reply, 20), 20);
    // Only the flag both sides offered is enabled.
    assert_eq!(u32_at(reply, 28), FuseInitFlag::BIG_WRITES.mask());
    assert_eq!(u32_at(reply, 36), 65536);
}

#[test]
fn fuse_handshake_refuses_other_major_version() {
    let server = FuseServer::new();
    let socket = ScriptSocket::new(vec![fuse_init(8, 0, 0)]);
    match server.try_connect(socket).unwrap() {
        FuseHandshake::Connected(_) => panic!("handshake should be refused"),
        FuseHandshake::Retry(socket) => {
            let sent = socket.sent.borrow().clone();
            assert_eq!(sent.len(), 1);
            assert_eq!(u32_at(&sent[0], 16), 7);
            assert_eq!(u32_at(&sent[0], 20), 36);
        },
    }
}

#[test]
fn max_write_offers_big_writes() {
    let mut server = FuseServer::new();
    server.max_write(4096);
    assert!(!server.init_reply.flags().get(FuseInitFlag::BIG_WRITES));
    server.max_write(4097);
    assert!(server.init_reply.flags().get(FuseInitFlag::BIG_WRITES));
}

#[test]
fn cuse_handshake_names_device() {
    let name = CuseDeviceName::from_bytes(b"mydev").unwrap();
    let mut server = CuseServer::new(name, CuseDeviceNumber::new(10, 20));
    server.max_write(1024);
    server.enable_unrestricted_ioctl();
    let mut body: Vec<u8> = Vec::new();
    body.extend_from_slice(&7u32.to_le_bytes());
    body.extend_from_slice(&36u32.to_le_bytes());
    body.extend_from_slice(&0u32.to_le_bytes());
    body.extend_from_slice(&1u32.to_le_bytes());
    let socket = ScriptSocket::new(vec![message(CUSE_INIT, 0, &body)]);
    let conn = match server.try_connect(socket).unwrap() {
        CuseHandshake::Connected(c) => c,
        CuseHandshake::Retry(_) => panic!("handshake refused"),
    };
    let sent = conn.socket().sent.borrow().clone();
    let reply = &sent[0];
    assert_eq!(reply.len(), 16 + 80 + 8 + 5 + 1);
    assert_eq!(u32_at(reply, 16 + 12), 1); // flags
    assert_eq!(u32_at(reply, 16 + 20), 1024); // max_write
    assert_eq!(u32_at(reply, 16 + 24), 10); // dev_major
    assert_eq!(u32_at(reply, 16 + 28), 20); // dev_minor
    assert_eq!(&reply[96..], b"DEVNAME=mydev\0");
}

#[test]
fn device_name_refuses_nul() {
    assert!(CuseDeviceName::from_bytes(b"").is_none());
    assert!(CuseDeviceName::from_bytes(b"a\0b").is_none());
}

struct Counter {
    statfs: RefCell<u32>,
    unimplemented: RefCell<u32>,
}

impl FuseHandlers for Counter {
    fn unimplemented(&self, _request: FuseRequest<'_>) {
        *self.unimplemented.borrow_mut() += 1;
    }

    fn statfs(&self, _request: FuseRequest<'_>) {
        *self.statfs.borrow_mut() += 1;
    }
}

#[test]
fn handlers_dispatch_by_opcode() {
    assert_eq!(fuse_route(FUSE_STATFS), FuseHandler::Statfs);
    assert_eq!(fuse_route(9999), FuseHandler::Unimplemented);

    let handlers = Counter { statfs: RefCell::new(0), unimplemented: RefCell::new(0) };
    let buf = message(FUSE_STATFS, 1, &[]);
    handlers.dispatch(FuseRequest::new(&buf, FuseLayout::latest()).unwrap());
    let buf = message(FUSE_SYNCFS, 1, &[0u8; 8]);
    handlers.dispatch(FuseRequest::new(&buf, FuseLayout::latest()).unwrap());
    assert_eq!(*handlers.statfs.borrow(), 1);
    assert_eq!(*handlers.unimplemented.borrow(), 1);
}

#[test]
fn serve_one_until_closed() {
    let handlers = Counter { statfs: RefCell::new(0), unimplemented: RefCell::new(0) };
    let socket = ScriptSocket::new(vec![fuse_init(7, 36, 0), message(FUSE_STATFS, 1, &[])]);
    let conn: FuseConnection<ScriptSocket> = match FuseServer::new().try_connect(socket).unwrap() {
        FuseHandshake::Connected(c) => c,
        FuseHandshake::Retry(_) => panic!("handshake refused"),
    };
    let mut buf = vec![0u8; conn.recv_buf_len()];
    assert_eq!(fuse_serve_one(&conn, &handlers, &mut buf), Ok(true));
    assert_eq!(fuse_serve_one(&conn, &handlers, &mut buf), Ok(false));
    assert_eq!(*handlers.statfs.borrow(), 1);
}

struct StatfsServer;

impl Handlers<ScriptSocket> for StatfsServer {
    fn statfs(&self, call: Call<'_, ScriptSocket>, _request: &StatfsRequest) -> SendResult<()> {
        let mut response = StatfsResponse::new();
        response.set_block_count(7);
        call.respond_ok(&response)
    }
}

#[test]
fn rpc_dispatch_answers_each_request() {
    assert_eq!(rpc_route(FUSE_STATFS), RpcRoute::Statfs);
    let socket = ScriptSocket::new(vec![]);
    let handlers = StatfsServer;
    let dispatcher = Dispatcher::from_socket(&socket, &handlers, FuseLayout::latest());

    // A handled request gets its reply.
    let buf = message(FUSE_STATFS, 1, &[]);
    dispatcher.dispatch(FuseRequest::new(&buf, FuseLayout::latest()).unwrap()).unwrap();
    // A request without a node is answered with EINVAL.
    let buf = message(FUSE_STATFS, 0, &[]);
    dispatcher.dispatch(FuseRequest::new(&buf, FuseLayout::latest()).unwrap()).unwrap();
    // An unhandled operation is answered with ENOSYS.
    let buf = message(FUSE_SYNCFS, 1, &[0u8; 8]);
    dispatcher.dispatch(FuseRequest::new(&buf, FuseLayout::latest()).unwrap()).unwrap();
    // An unknown opcode is answered with ENOSYS.
    let buf = message(9999, 1, &[]);
    dispatcher.dispatch(FuseRequest::new(&buf, FuseLayout::latest()).unwrap()).unwrap();

    let sent = socket.sent.borrow().clone();
    assert_eq!(sent.len(), 4);
    assert_eq!(sent[0].len(), 16 + 80);
    assert_eq!(u32_at(&sent[0], 4), 0);
    assert_eq!(u32_at(&sent[0], 16), 7);
    assert_eq!(u32_at(&sent[1], 4) as i32, -22);
    assert_eq!(u32_at(&sent[2], 4) as i32, -38);
    assert_eq!(u32_at(&sent[3], 4) as i32, -38);
}

#[test]
fn forgotten_request_is_no_error() {
    assert_eq!(dispatch_outcome::<()>(Err(SendError::NotFound(()))), Ok(()));
    assert_eq!(dispatch_outcome::<()>(Err(SendError::Other(()))), Err(SendError::Other(())));
    assert_eq!(dispatch_outcome::<()>(Ok(())), Ok(()));
}

struct CountingHooks {
    requests: RefCell<u32>,
}

impl Hooks for CountingHooks {
    fn request(&self, _header: fuse::kernel::FuseInHeader) {
        *self.requests.borrow_mut() += 1;
    }
}

#[test]
fn hooks_see_requests() {
    let socket = ScriptSocket::new(vec![]);
    let handlers = StatfsServer;
    let hooks = CountingHooks { requests: RefCell::new(0) };
    let mut dispatcher = Dispatcher::from_socket(&socket, &handlers, FuseLayout::latest());
    dispatcher.set_hooks(&hooks);
    let buf = message(FUSE_STATFS, 1, &[]);
    dispatcher.dispatch(FuseRequest::new(&buf, FuseLayout::latest()).unwrap()).unwrap();
    assert_eq!(*hooks.requests.borrow(), 1);
}

#[test]
fn error_reply_codes() {
    assert_eq!(Error::not_found().raw_fuse_error_code(), -2);
    assert_eq!(
        fuse::error::request_error_reply(fuse::error::RequestError::UnexpectedEof).raw_fuse_error_code(),
        -71
    );
    assert_eq!(
        fuse::error::request_error_reply(fuse::error::RequestError::MissingNodeId).raw_fuse_error_code(),
        -22
    );
}

#[test]
fn fuse_init_received_decides_from_received_bytes() {
    let buf = fuse_init(7, 31, 5);
    let (id, req) = fuse_init_received::<()>(&buf, Ok(buf.len())).unwrap();
    assert_eq!(id, UNIQUE);
    assert_eq!(req.version(), Version::new(7, 31));
    assert_eq!(req.flags().to_bits(), 5);

    assert!(matches!(
        fuse_init_received::<()>(&buf, Err(RecvError::ConnectionClosed(()))),
        Err(ServerError::RecvError(RecvError::ConnectionClosed(())))
    ));
    assert!(matches!(
        fuse_init_received::<()>(&buf, Ok(10)),
        Err(ServerError::RequestError(RequestError::UnexpectedEof))
    ));
    let other = message(FUSE_STATFS, 1, &[]);
    assert!(matches!(
        fuse_init_received::<()>(&other, Ok(other.len())),
        Err(ServerError::RequestError(RequestError::OpcodeMismatch))
    ));
}

#[test]
fn fuse_handshake_sent_decides_outcome() {
    let mut reply = FuseInitResponse::new();
    reply.set_version(Version::new(7, 12));
    reply.set_max_write(8192);
    let socket = ScriptSocket::new(vec![]);
    match fuse_handshake_sent(socket, &reply, true, Ok(())).unwrap() {
        FuseHandshake::Connected(c) => {
            assert_eq!(c.layout().version_minor(), 12);
            assert_eq!(c.recv_buf_len(), 8192 + 4096);
        },
        FuseHandshake::Retry(_) => panic!("should connect"),
    }
    let socket = ScriptSocket::new(vec![]);
    assert!(matches!(
        fuse_handshake_sent(socket, &reply, false, Ok(())).unwrap(),
        FuseHandshake::Retry(_)
    ));
    let socket = ScriptSocket::new(vec![]);
    assert!(matches!(
        fuse_handshake_sent(socket, &reply, true, Err(SendError::Other(()))),
        Err(ServerError::SendError(SendError::Other(())))
    ));
}

#[test]
fn fuse_handshake_closed_socket_is_recv_error() {
    let server = FuseServer::new();
    let socket = ScriptSocket::new(vec![]);
    assert!(matches!(
        server.try_connect(socket),
        Err(ServerError::RecvError(RecvError::ConnectionClosed(())))
    ));
}

#[test]
fn fuse_handshake_retry_then_connect() {
    let server = FuseServer::new();
    let socket = ScriptSocket::new(vec![fuse_init(6, 5, 0), fuse_init(7, 40, 0)]);
    let socket = match server.try_connect(socket).unwrap() {
        FuseHandshake::Retry(s) => s,
        FuseHandshake::Connected(_) => panic!("first client should be refused"),
    };
    let conn = match server.try_connect(socket).unwrap() {
        FuseHandshake::Connected(c) => c,
        FuseHandshake::Retry(_) => panic!("second client should connect"),
    };
    assert_eq!(conn.layout().version_minor(), 36);
    assert_eq!(conn.socket().sent.borrow().len(), 2);
}

#[test]
fn fuse_handshake_with_keeps_built_reply() {
    let buf = fuse_init(7, 20, 0);
    let (_, req) = fuse_init_received::<()>(&buf, Ok(buf.len())).unwrap();
    let mut built = FuseInitResponse::new();
    built.set_max_write(1 << 20);
    built.set_flags(FuseInitFlags::from_bits(0x2000_0000));
    let (reply, ok) = fuse_handshake_with(&req, built);
    assert!(ok);
    assert_eq!(reply.version(), Version::new(7, 20));
    assert_eq!(reply.max_write(), 1 << 20);
    assert_eq!(reply.flags().to_bits(), 0x2000_0000);

    let buf = fuse_init(8, 1, 0);
    let (_, req) = fuse_init_received::<()>(&buf, Ok(buf.len())).unwrap();
    let mut built = FuseInitResponse::new();
    built.set_max_write(1 << 20);
    let (reply, ok) = fuse_handshake_with(&req, built);
    assert!(!ok);
    assert_eq!(reply.version(), Version::latest());
    assert_eq!(reply.max_write(), 0);
}

#[test]
fn ok_buf_sends_one_framed_message() {
    let socket = ScriptSocket::new(vec![]);
    let sender = FuseReplySender::new(&socket, FuseLayout::latest(), 7);
    assert_eq!(sender.ok_buf(b"hello"), Ok(()));
    let sent = socket.sent.borrow().clone();
    assert_eq!(sent.len(), 1);
    let mut expect: Vec<u8> = Vec::new();
    expect.extend_from_slice(&21u32.to_le_bytes());
    expect.extend_from_slice(&0i32.to_le_bytes());
    expect.extend_from_slice(&7u64.to_le_bytes());
    expect.extend_from_slice(b"hello");
    assert_eq!(sent[0], expect);
}

#[test]
fn err_sends_bare_header() {
    let socket = ScriptSocket::new(vec![]);
    let sender = FuseReplySender::new(&socket, FuseLayout::latest(), 9);
    assert_eq!(sender.err(Error::not_found()), Ok(()));
    let sent = socket.sent.borrow().clone();
    assert_eq!(sent.len(), 1);
    let mut expect: Vec<u8> = Vec::new();
    expect.extend_from_slice(&16u32.to_le_bytes());
    expect.extend_from_slice(&(-2i32).to_le_bytes());
    expect.extend_from_slice(&9u64.to_le_bytes());
    assert_eq!(sent[0], expect);
}

#[test]
fn readlink_reply_goes_out_without_nul() {
    let socket = ScriptSocket::new(vec![]);
    let name = NodeName::from_bytes(b"hello.world!").unwrap();
    let response = ReadlinkResponse::from_name(&name);
    let sender = FuseReplySender::new(&socket, FuseLayout::latest(), 3);
    assert_eq!(response.send_to(sender), Ok(()));
    let sent = socket.sent.borrow().clone();
    assert_eq!(sent.len(), 1);
    let mut expect: Vec<u8> = Vec::new();
    expect.extend_from_slice(&28u32.to_le_bytes());
    expect.extend_from_slice(&0i32.to_le_bytes());
    expect.extend_from_slice(&3u64.to_le_bytes());
    expect.extend_from_slice(b"hello.world!");
    assert_eq!(sent[0], expect);
}

/// A socket that refuses every reply and records what it was given.
struct RefusingSocket {
    sent: RefCell<Vec<Vec<u8>>>,
}

impl Socket for RefusingSocket {
    type Error = ();

    fn recv(&self, _buf: &mut [u8]) -> Result<usize, RecvError<()>> {
        Err(RecvError::ConnectionClosed(()))
    }

    fn send(&self, buf: &[u8]) -> Result<(), SendError<()>> {
        self.sent.borrow_mut().push(buf.to_vec());
        Err(SendError::Other(()))
    }
}

impl FuseSocket for RefusingSocket {}

struct RefusedStatfs;

impl Handlers<RefusingSocket> for RefusedStatfs {
    fn statfs(&self, call: Call<'_, RefusingSocket>, _request: &StatfsRequest) -> SendResult<()> {
        call.respond_ok(&StatfsResponse::new())
    }
}

#[test]
fn refused_reply_is_followed_by_eproto() {
    let socket = RefusingSocket { sent: RefCell::new(Vec::new()) };
    let handlers = RefusedStatfs;
    let dispatcher = Dispatcher::from_socket(&socket, &handlers, FuseLayout::latest());
    let buf = message(FUSE_STATFS, 1, &[]);
    let result = dispatcher.dispatch(FuseRequest::new(&buf, FuseLayout::latest()).unwrap());
    assert_eq!(result, Err(SendError::Other(())));
    let sent = socket.sent.borrow().clone();
    assert_eq!(sent.len(), 2);
    assert_eq!(sent[0].len(), 16 + 80);
    assert_eq!(sent[1].len(), 16);
    assert_eq!(u32_at(&sent[1], 4) as i32, -71);
    assert_eq!(u32_at(&sent[1], 8), UNIQUE as u32);
}
