use fuse::encode::encode_reply;
use fuse::kernel::{FUSE_ROOT_ID, FUSE_STATFS};
use fuse::operations::statfs::{StatfsRequest, StatfsResponse};
use fuse::server::{FuseLayout, FuseRequest};

const UNIQUE: u64 = 0xAABBCCDD;

fn message(opcode: u32, nodeid: u64, body: &[u8]) -> Vec<u8> {
    let mut v: Vec<u8> = Vec::new();
    v.extend_from_slice(&((40 + body.len()) as u32).to_le_bytes());
    v.extend_from_slice(&opcode.to_le_bytes());
    v.extend_from_slice(&UNIQUE.to_le_bytes());
    v.extend_from_slice(&nodeid.to_le_bytes());
    v.extend_from_slice(&0u32.to_le_bytes());
    v.extend_from_slice(&0u32.to_le_bytes());
    v.extend_from_slice(&0u32.to_le_bytes());
    v.extend_from_slice(&0u32.to_le_bytes());
    v.extend_from_slice(body);
    v
}

fn le32(v: u32) -> [u8; 4] {
    v.to_le_bytes()
}

fn le64(v: u64) -> [u8; 8] {
    v.to_le_bytes()
}

fn out_header(len: u32, error: i32, unique: u64) -> Vec<u8> {
    let mut v: Vec<u8> = Vec::new();
    v.extend_from_slice(&len.to_le_bytes());
    v.extend_from_slice(&error.to_le_bytes());
    v.extend_from_slice(&unique.to_le_bytes());
    v
}

fn filled_response() -> StatfsResponse {
    let mut response = StatfsResponse::new();
    response.set_block_count(10);
    response.set_block_size(20);
    response.set_blocks_available(30);
    response.set_blocks_free(40);
    response.set_fragment_size(50);
    response.set_inode_count(60);
    response.set_inodes_free(70);
    response.set_max_filename_length(80);
    response
}

fn kstatfs_bytes() -> Vec<u8> {
    let mut v: Vec<u8> = Vec::new();
    v.extend_from_slice(&le64(10)); // blocks
    v.extend_from_slice(&le64(40)); // bfree
    v.extend_from_slice(&le64(30)); // bavail
    v.extend_from_slice(&le64(60)); // files
    v.extend_from_slice(&le64(70)); // ffree
    v.extend_from_slice(&le32(20)); // bsize
    v.extend_from_slice(&le32(80)); // namelen
    v.extend_from_slice(&le32(50)); // frsize
    v.extend_from_slice(&[0u8; 28]);
    v
}

#[test]
fn statfs_test_request() {
    let buf = message(FUSE_STATFS, 123, &[]);
    let request = FuseRequest::new(&buf, FuseLayout::latest()).unwrap();
    let req = StatfsRequest::from_fuse_request(&request).unwrap();
    assert_eq!(req.node_id().get(), 123);
}

#[test]
fn statfs_test_request_impl_debug() {
    let buf = message(FUSE_STATFS, FUSE_ROOT_ID, &[]);
    let request = FuseRequest::new(&buf, FuseLayout::latest()).unwrap();
    let req = StatfsRequest::from_fuse_request(&request).unwrap();
    assert_eq!(
        req.debug_string(),
        ["StatfsRequest {\n", "    node_id: 1,\n", "}",].concat(),
    );
}

#[test]
fn statfs_test_response_v7p1() {
    let response = filled_response();
    let payload = response.payload(1);
    let encoded = encode_reply(0, &payload, &[], &[], &[]).unwrap();

    let mut expect = out_header(16 + 48, 0, 0);
    expect.extend_from_slice(&kstatfs_bytes()[..48]);
    assert_eq!(encoded, expect);
}

#[test]
fn response_v7p4() {
    let response = filled_response();
    let payload = response.payload(4);
    let encoded = encode_reply(0, &payload, &[], &[], &[]).unwrap();

    let mut expect = out_header(16 + 80, 0, 0);
    expect.extend_from_slice(&kstatfs_bytes());
    assert_eq!(encoded, expect);
}

#[test]
fn statfs_test_response_impl_debug() {
    let response = filled_response();
    assert_eq!(
        response.debug_string(),
        [
            "StatfsResponse {\n",
            "    block_count: 10,\n",
            "    block_size: 20,\n",
            "    blocks_available: 30,\n",
            "    blocks_free: 40,\n",
            "    fragment_size: 50,\n",
            "    inode_count: 60,\n",
            "    inodes_free: 70,\n",
            "    max_filename_length: 80,\n",
            "}",
        ].concat(),
    );
}

#[test]
fn statfs_new_response_is_zero() {
    let response = StatfsResponse::new();
    assert_eq!(response.payload(36), vec![0u8; 80]);
    assert_eq!(response.attributes().block_count(), 0);
}
