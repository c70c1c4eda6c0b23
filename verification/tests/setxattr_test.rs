use fuse::kernel::{FUSE_ROOT_ID, FUSE_SETXATTR, FUSE_SETXATTR_ACL_KILL_SGID};
use fuse::operations::setxattr::{SetxattrRequest, SetxattrRequestFlag, SetxattrRequestFlags};
use fuse::server::{FuseLayout, FuseRequest};

const UNIQUE: u64 = 0xAABBCCDD;

fn message(opcode: u32, nodeid: u64, body: &[u8]) -> Vec<u8> {
    let mut v: Vec<u8> = Vec::new();
    v.extend_from_slice(&((40 + body.len()) as u32).to_le_bytes());
    v.extend_from_slice(&opcode.to_le_bytes());
    v.extend_from_slice(&UNIQUE.to_le_bytes());
    v.extend_from_slice(&nodeid.to_le_bytes());
    v.extend_from_slice(&0u32.to_le_bytes());
    v.extend_from_slice(&0u32.to_le_bytes());
    v.extend_from_slice(&0u32.to_le_bytes());
    v.extend_from_slice(&0u32.to_le_bytes());
    v.extend_from_slice(body);
    v
}

fn le32(v: u32) -> [u8; 4] {
    v.to_le_bytes()
}

fn le64(v: u64) -> [u8; 8] {
    v.to_le_bytes()
}

fn request_bytes(nodeid: u64, flags: u32) -> Vec<u8> {
    let mut body: Vec<u8> = Vec::new();
    body.extend_from_slice(&le32(10)); // size
    body.extend_from_slice(&le32(flags)); // flags
    body.extend_from_slice(b"hello.world!\x00");
    body.extend_from_slice(b"some\x00value");
    message(FUSE_SETXATTR, nodeid, &body)
}

#[test]
fn setxattr_test_request() {
    let buf = request_bytes(123, 0b11);
    let request = FuseRequest::new(&buf, FuseLayout::latest()).unwrap();
    let req = SetxattrRequest::from_fuse_request(&request).unwrap();

    assert_eq!(req.name().as_bytes(), b"hello.world!");
    assert_eq!(req.value().as_bytes(), b"some\x00value");
    assert_eq!(req.setxattr_flags(), 0b11);
}

#[test]
fn setxattr_test_request_impl_debug() {
    let buf = request_bytes(FUSE_ROOT_ID, 0);
    let request = FuseRequest::new(&buf, FuseLayout::latest()).unwrap();
    let req = SetxattrRequest::from_fuse_request(&request).unwrap();

    assert_eq!(
        req.debug_string(),
        [
            "SetxattrRequest {\n",
            "    node_id: 1,\n",
            "    name: \"hello.world!\",\n",
            "    flags: SetxattrRequestFlags {},\n",
            "    setxattr_flags: 0x00000000,\n",
            "    value: \"some\\x00value\",\n",
            "}",
        ].concat(),
    );
}

#[test]
fn setxattr_extended_header() {
    let mut body: Vec<u8> = Vec::new();
    body.extend_from_slice(&le32(3)); // size
    body.extend_from_slice(&le32(1)); // flags
    body.extend_from_slice(&le32(FUSE_SETXATTR_ACL_KILL_SGID)); // setxattr_flags
    body.extend_from_slice(&le32(0)); // padding
    body.extend_from_slice(b"user.x\x00");
    body.extend_from_slice(b"abc");
    let buf = message(FUSE_SETXATTR, 5, &body);
    let request = FuseRequest::new(&buf, FuseLayout::with_version(33, true)).unwrap();
    let req = SetxattrRequest::from_fuse_request(&request).unwrap();
    assert!(req.flags().get(SetxattrRequestFlag::ACL_KILL_SGID));
    assert_eq!(req.setxattr_flags(), 1);
    assert_eq!(req.value().as_bytes(), b"abc");
}

#[test]
fn setxattr_flags_debug_lists_set_bits() {
    let flags = SetxattrRequestFlags::from_bits(FUSE_SETXATTR_ACL_KILL_SGID | 0x4);
    assert_eq!(
        String::from_utf8(flags.debug_text()).unwrap(),
        "SetxattrRequestFlags {\n        ACL_KILL_SGID,\n        0x00000004,\n    }"
    );
}
