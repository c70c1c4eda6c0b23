use std::cell::RefCell;

use fuse::kernel::{FUSE_REMOVEXATTR, FUSE_RENAME, FUSE_RENAME2, FUSE_RMDIR, FUSE_ROOT_ID, FUSE_SYMLINK};
use fuse::node::NodeId;
use fuse::operations::removexattr::{RemovexattrRequest, RemovexattrResponse};
use fuse::operations::rename::RenameRequest;
use fuse::operations::rmdir::{RmdirRequest, RmdirResponse};
use fuse::operations::symlink::SymlinkRequest;
use fuse::server::{FuseLayout, FuseReply, FuseReplySender, FuseRequest, FuseSocket, RecvError, SendError, Socket};
use fuse::xattr::XattrName;

const UNIQUE: u64 = 0xAABBCCDD;

fn message(opcode: u32, nodeid: u64, body: &[u8]) -> Vec<u8> {
    let mut v: Vec<u8> = Vec::new();
    v.extend_from_slice(&((40 + body.len()) as u32).to_le_bytes());
    v.extend_from_slice(&opcode.to_le_bytes());
    v.extend_from_slice(&UNIQUE.to_le_bytes());
    v.extend_from_slice(&nodeid.to_le_bytes());
    v.extend_from_slice(&0u32.to_le_bytes());
    v.extend_from_slice(&0u32.to_le_bytes());
    v.extend_from_slice(&0u32.to_le_bytes());
    v.extend_from_slice(&0u32.to_le_bytes());
    v.extend_from_slice(body);
    v
}

fn le32(v: u32) -> [u8; 4] {
    v.to_le_bytes()
}

fn le64(v: u64) -> [u8; 8] {
    v.to_le_bytes()
}

struct CaptureSocket {
    sent: RefCell<Vec<Vec<u8>>>,
}

impl CaptureSocket {
    fn new() -> CaptureSocket {
        CaptureSocket { sent: RefCell::new(Vec::new()) }
    }
}

impl Socket for CaptureSocket {
    type Error = ();

    fn recv(&self, _buf: &mut [u8]) -> Result<usize, RecvError<()>> {
        Err(RecvError::ConnectionClosed(()))
    }

    fn send(&self, buf: &[u8]) -> Result<(), SendError<()>> {
        self.sent.borrow_mut().push(buf.to_vec());
        Ok(())
    }
}

impl FuseSocket for CaptureSocket {}

fn out_header(len: u32, error: i32, unique: u64) -> Vec<u8> {
    let mut v: Vec<u8> = Vec::new();
    v.extend_from_slice(&len.to_le_bytes());
    v.extend_from_slice(&error.to_le_bytes());
    v.extend_from_slice(&unique.to_le_bytes());
    v
}


fn rename_request(opcode: u32, newdir: u64, flags: Option<u32>) -> Vec<u8> {
    let mut body: Vec<u8> = Vec::new();
    body.extend_from_slice(&le64(newdir));
    if let Some(f) = flags {
        body.extend_from_slice(&le32(f));
        body.extend_from_slice(&le32(0));
    }
    body.extend_from_slice(b"old\x00");
    body.extend_from_slice(b"new\x00");
    message(opcode, 123, &body)
}

#[test]
fn request_rename() {
    let buf = rename_request(FUSE_RENAME, 456, None);
    let request = FuseRequest::new(&buf, FuseLayout::latest()).unwrap();
    let request = RenameRequest::from_fuse_request(&request).unwrap();

    assert_eq!(request.old_name().as_bytes(), b"old");
    assert_eq!(request.new_name().as_bytes(), b"new");
    assert_eq!(request.old_directory_id(), NodeId::new(123).unwrap());
    assert_eq!(request.new_directory_id(), NodeId::new(456).unwrap());
    assert_eq!(request.rename_flags(), 0);
}

#[test]
fn request_rename2() {
    let buf = rename_request(FUSE_RENAME2, 456, Some(0b111));
    let request = FuseRequest::new(&buf, FuseLayout::latest()).unwrap();
    let request = RenameRequest::from_fuse_request(&request).unwrap();

    assert_eq!(request.old_name().as_bytes(), b"old");
    assert_eq!(request.new_name().as_bytes(), b"new");
    assert_eq!(request.old_directory_id(), NodeId::new(123).unwrap());
    assert_eq!(request.new_directory_id(), NodeId::new(456).unwrap());
    assert_eq!(request.rename_flags(), 0b111);
}

#[test]
fn rename_test_request_impl_debug() {
    let buf = rename_request(FUSE_RENAME2, 456, Some(0b111));
    let request = FuseRequest::new(&buf, FuseLayout::latest()).unwrap();
    let request = RenameRequest::from_fuse_request(&request).unwrap();
    assert_eq!(
        request.debug_string(),
        [
            "RenameRequest {\n",
            "    old_directory_id: 123,\n",
            "    old_name: \"old\",\n",
            "    new_directory_id: 456,\n",
            "    new_name: \"new\",\n",
            "    rename_flags: 0x00000007,\n",
            "}",
        ].concat(),
    );
}

#[test]
fn rename_to_missing_directory() {
    let buf = rename_request(FUSE_RENAME, 0, None);
    let request = FuseRequest::new(&buf, FuseLayout::latest()).unwrap();
    assert_eq!(
        RenameRequest::from_fuse_request(&request).err(),
        Some(fuse::error::RequestError::MissingNodeId)
    );
}

#[test]
fn rmdir_test_request() {
    let buf = message(FUSE_RMDIR, 100, b"hello.world!\x00");
    let request = FuseRequest::new(&buf, FuseLayout::latest()).unwrap();
    let request = RmdirRequest::from_fuse_request(&request).unwrap();

    let expect: &[u8] = b"hello.world!";
    assert_eq!(request.parent_id(), NodeId::new(100).unwrap());
    assert_eq!(request.name().as_bytes(), expect);
}

#[test]
fn rmdir_test_request_impl_debug() {
    let buf = message(FUSE_RMDIR, 100, b"hello.world!\x00");
    let request = FuseRequest::new(&buf, FuseLayout::latest()).unwrap();
    let request = RmdirRequest::from_fuse_request(&request).unwrap();
    assert_eq!(
        request.debug_string(),
        ["RmdirRequest {\n", "    parent_id: 100,\n", "    name: \"hello.world!\",\n", "}",].concat(),
    );
}

#[test]
fn rmdir_test_response_empty() {
    let resp = RmdirResponse::new();
    let socket = CaptureSocket::new();
    resp.send_to(FuseReplySender::new(&socket, FuseLayout::latest(), UNIQUE)).unwrap();
    assert_eq!(socket.sent.borrow().clone(), vec![out_header(16, 0, 0xAABBCCDD)]);
}

#[test]
fn rmdir_test_response_impl_debug() {
    let response = RmdirResponse::new();
    assert_eq!(response.debug_string(), "RmdirResponse");
}

#[test]
fn removexattr_test_request() {
    let buf = message(FUSE_REMOVEXATTR, 123, b"hello.world!\x00");
    let request = FuseRequest::new(&buf, FuseLayout::latest()).unwrap();
    let req = RemovexattrRequest::from_fuse_request(&request).unwrap();

    let expect = XattrName::from_bytes(b"hello.world!").unwrap();
    assert_eq!(req.name(), expect);
}

#[test]
fn removexattr_test_request_impl_debug() {
    let buf = message(FUSE_REMOVEXATTR, FUSE_ROOT_ID, b"hello.world!\x00");
    let request = FuseRequest::new(&buf, FuseLayout::latest()).unwrap();
    let req = RemovexattrRequest::from_fuse_request(&request).unwrap();
    assert_eq!(
        req.debug_string(),
        ["RemovexattrRequest {\n", "    node_id: 1,\n", "    name: \"hello.world!\",\n", "}",].concat(),
    );
}

#[test]
fn removexattr_test_response_empty() {
    let _resp = RemovexattrResponse::new();
    let encoded = fuse::encode::encode_reply(0, &[], &[], &[], &[]).unwrap();
    assert_eq!(encoded, out_header(16, 0, 0));
}

#[test]
fn removexattr_test_response_impl_debug() {
    let response = RemovexattrResponse::new();
    assert_eq!(response.debug_string(), "RemovexattrResponse");
}

#[test]
fn symlink_test_request() {
    let mut body: Vec<u8> = Vec::new();
    body.extend_from_slice(b"link content\x00");
    body.extend_from_slice(b"link name\x00");
    let buf = message(FUSE_SYMLINK, 100, &body);
    let request = FuseRequest::new(&buf, FuseLayout::latest()).unwrap();
    let request = SymlinkRequest::from_fuse_request(&request).unwrap();

    let expect_content: &[u8] = b"link content";
    let expect_name: &[u8] = b"link name";
    assert_eq!(request.parent_id(), NodeId::new(100).unwrap());
    assert_eq!(request.name().as_bytes(), expect_name);
    assert_eq!(request.content(), expect_content);
}

#[test]
fn symlink_test_request_impl_debug() {
    let mut body: Vec<u8> = Vec::new();
    body.extend_from_slice(b"link content\x00");
    body.extend_from_slice(b"link name\x00");
    let buf = message(FUSE_SYMLINK, 100, &body);
    let request = FuseRequest::new(&buf, FuseLayout::latest()).unwrap();
    let request = SymlinkRequest::from_fuse_request(&request).unwrap();
    assert_eq!(
        request.debug_string(),
        [
            "SymlinkRequest {\n",
            "    parent_id: 100,\n",
            "    name: \"link name\",\n",
            "    content: \"link content\",\n",
            "}",
        ].concat(),
    );
}
