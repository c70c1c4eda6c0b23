use fuse::encode::encode_reply;
use fuse::kernel::{FUSE_READLINK, FUSE_ROOT_ID};
use fuse::node_name::NodeName;
use fuse::operations::readlink::{ReadlinkRequest, ReadlinkResponse};
use fuse::server::{FuseLayout, FuseRequest};

const UNIQUE: u64 = 0xAABBCCDD;

fn message(opcode: u32, nodeid: u64, body: &[u8]) -> Vec<u8> {
    let mut v: Vec<u8> = Vec::new();
    v.extend_from_slice(&((40 + body.len()) as u32).to_le_bytes());
    v.extend_from_slice(&opcode.to_le_bytes());
    v.extend_from_slice(&UNIQUE.to_le_bytes());
    v.extend_from_slice(&nodeid.to_le_bytes());
    v.extend_from_slice(&0u32.to_le_bytes());
    v.extend_from_slice(&0u32.to_le_bytes());
    v.extend_from_slice(&0u32.to_le_bytes());
    v.extend_from_slice(&0u32.to_le_bytes());
    v.extend_from_slice(body);
    v
}

fn le32(v: u32) -> [u8; 4] {
    v.to_le_bytes()
}

fn le64(v: u64) -> [u8; 8] {
    v.to_le_bytes()
}

fn out_header(len: u32, error: i32, unique: u64) -> Vec<u8> {
    let mut v: Vec<u8> = Vec::new();
    v.extend_from_slice(&len.to_le_bytes());
    v.extend_from_slice(&error.to_le_bytes());
    v.extend_from_slice(&unique.to_le_bytes());
    v
}

#[test]
fn request_empty() {
    let buf = message(FUSE_READLINK, 123, &[]);
    let request = FuseRequest::new(&buf, FuseLayout::latest()).unwrap();
    let req = ReadlinkRequest::from_fuse_request(&request).unwrap();
    assert_eq!(req.node_id().get(), 123);
}

#[test]
fn readlink_test_request_impl_debug() {
    let buf = message(FUSE_READLINK, FUSE_ROOT_ID, &[]);
    let request = FuseRequest::new(&buf, FuseLayout::latest()).unwrap();
    let req = ReadlinkRequest::from_fuse_request(&request).unwrap();
    assert_eq!(
        req.debug_string(),
        ["ReadlinkRequest {\n", "    node_id: 1,\n", "}",].concat(),
    );
}

#[test]
fn readlink_test_response() {
    let name = NodeName::from_bytes(b"hello.world!").unwrap();
    let resp = ReadlinkResponse::from_name(&name);
    let encoded = encode_reply(0, resp.target(), &[], &[], &[]).unwrap();

    let mut expect = out_header(16 + 12, 0, 0);
    expect.extend_from_slice(b"hello.world!");
    assert_eq!(encoded, expect);
}

#[test]
fn readlink_test_response_impl_debug() {
    let name = NodeName::from_bytes(b"hello.world!").unwrap();
    let response = ReadlinkResponse::from_name(&name);
    assert_eq!(
        response.debug_string(),
        ["ReadlinkResponse {\n", r#"    target: "hello.world!","#, "\n", "}",].concat(),
    );
}

#[test]
fn readlink_request_wrong_opcode() {
    let buf = message(FUSE_READLINK + 1, 123, &[]);
    let request = FuseRequest::new(&buf, FuseLayout::latest()).unwrap();
    assert_eq!(
        ReadlinkRequest::from_fuse_request(&request).err(),
        Some(fuse::error::RequestError::OpcodeMismatch)
    );
}

#[test]
fn readlink_request_without_node() {
    let buf = message(FUSE_READLINK, 0, &[]);
    let request = FuseRequest::new(&buf, FuseLayout::latest()).unwrap();
    assert_eq!(
        ReadlinkRequest::from_fuse_request(&request).err(),
        Some(fuse::error::RequestError::MissingNodeId)
    );
}
