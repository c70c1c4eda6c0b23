use fuse::kernel::{FUSE_WRITE, FUSE_WRITE_CACHE, FUSE_WRITE_LOCKOWNER};
use fuse::lock::LockOwner;
use fuse::operations::write::{WriteRequest, WriteRequestFlag, WriteResponse};
use fuse::server::{FuseLayout, FuseRequest};

const UNIQUE: u64 = 0xAABBCCDD;

fn message(opcode: u32, nodeid: u64, body: &[u8]) -> Vec<u8> {
    let mut v: Vec<u8> = Vec::new();
    v.extend_from_slice(&((40 + body.len()) as u32).to_le_bytes());
    v.extend_from_slice(&opcode.to_le_bytes());
    v.extend_from_slice(&UNIQUE.to_le_bytes());
    v.extend_from_slice(&nodeid.to_le_bytes());
    v.extend_from_slice(&0u32.to_le_bytes());
    v.extend_from_slice(&0u32.to_le_bytes());
    v.extend_from_slice(&0u32.to_le_bytes());
    v.extend_from_slice(&0u32.to_le_bytes());
    v.extend_from_slice(body);
    v
}

fn le32(v: u32) -> [u8; 4] {
    v.to_le_bytes()
}

fn le64(v: u64) -> [u8; 8] {
    v.to_le_bytes()
}

const DUMMY_WRITE_FLAG: u32 = 0x80000000;

fn write_in(fh: u64, offset: u64, size: u32, write_flags: u32, lock_owner: u64, flags: u32) -> Vec<u8> {
    let mut v: Vec<u8> = Vec::new();
    v.extend_from_slice(&le64(fh));
    v.extend_from_slice(&le64(offset));
    v.extend_from_slice(&le32(size));
    v.extend_from_slice(&le32(write_flags));
    v.extend_from_slice(&le64(lock_owner));
    v.extend_from_slice(&le32(flags));
    v.extend_from_slice(&le32(0));
    v
}

#[test]
fn write_test_request_v7p1() {
    let mut body: Vec<u8> = Vec::new();
    body.extend_from_slice(&le64(123)); // fh
    body.extend_from_slice(&le64(45)); // offset
    body.extend_from_slice(&le32(12)); // size
    body.extend_from_slice(&le32(0)); // write_flags
    body.extend_from_slice(b"hello.world!");
    let buf = message(FUSE_WRITE, 123, &body);
    let request = FuseRequest::new(&buf, FuseLayout::with_version(1, false)).unwrap();
    let req = WriteRequest::from_fuse_request(&request).unwrap();

    assert_eq!(req.handle(), 123);
    assert_eq!(req.offset(), 45);
    assert_eq!(req.lock_owner(), None);
    assert_eq!(req.flags().get(WriteRequestFlag::WRITE_CACHE), false);
    assert_eq!(req.open_flags(), 0);
    assert_eq!(req.value(), b"hello.world!");
}

#[test]
fn request_v7p9() {
    let mut body = write_in(123, 45, 12, 0, 0, 67);
    body.extend_from_slice(b"hello.world!");
    let buf = message(FUSE_WRITE, 123, &body);
    let request = FuseRequest::new(&buf, FuseLayout::with_version(9, false)).unwrap();
    let req = WriteRequest::from_fuse_request(&request).unwrap();

    assert_eq!(req.handle(), 123);
    assert_eq!(req.offset(), 45);
    assert_eq!(req.lock_owner(), None);
    assert_eq!(req.flags().get(WriteRequestFlag::WRITE_CACHE), false);
    assert_eq!(req.open_flags(), 67);
    assert_eq!(req.value(), b"hello.world!");
}

#[test]
fn write_test_request_lock_owner() {
    let body = write_in(0, 0, 0, DUMMY_WRITE_FLAG | FUSE_WRITE_LOCKOWNER, 123, 0);
    let buf = message(FUSE_WRITE, 123, &body);
    let request = FuseRequest::new(&buf, FuseLayout::latest()).unwrap();
    let req = WriteRequest::from_fuse_request(&request).unwrap();
    assert_eq!(req.lock_owner(), Some(LockOwner(123)));
}

#[test]
fn request_page_cache() {
    let body = write_in(0, 0, 0, DUMMY_WRITE_FLAG | FUSE_WRITE_CACHE, 0, 0);
    let buf = message(FUSE_WRITE, 123, &body);
    let request = FuseRequest::new(&buf, FuseLayout::latest()).unwrap();
    let req = WriteRequest::from_fuse_request(&request).unwrap();
    assert_eq!(req.flags().get(WriteRequestFlag::WRITE_CACHE), true);
}

#[test]
fn write_value_longer_than_request() {
    let mut body = write_in(1, 0, 20, 0, 0, 0);
    body.extend_from_slice(b"short");
    let buf = message(FUSE_WRITE, 123, &body);
    let request = FuseRequest::new(&buf, FuseLayout::latest()).unwrap();
    assert_eq!(
        WriteRequest::from_fuse_request(&request).err(),
        Some(fuse::error::RequestError::UnexpectedEof)
    );
}

#[test]
fn write_response_payload() {
    let mut response = WriteResponse::new();
    response.set_size(12);
    assert_eq!(response.payload(), vec![12, 0, 0, 0, 0, 0, 0, 0]);
}

#[test]
fn write_request_debug() {
    let mut body = write_in(3, 45, 2, DUMMY_WRITE_FLAG | FUSE_WRITE_LOCKOWNER, 123, 0x4);
    body.extend_from_slice(b"hi");
    let buf = message(FUSE_WRITE, 123, &body);
    let request = FuseRequest::new(&buf, FuseLayout::latest()).unwrap();
    let req = WriteRequest::from_fuse_request(&request).unwrap();
    assert_eq!(
        req.debug_string(),
        [
            "WriteRequest {\n",
            "    node_id: 123,\n",
            "    offset: 45,\n",
            "    handle: 3,\n",
            "    value: \"hi\",\n",
            "    flags: WriteRequestFlags {\n",
            "        WRITE_LOCKOWNER,\n",
            "        0x80000000,\n",
            "    },\n",
            "    lock_owner: Some(0x000000000000007B),\n",
            "    open_flags: 0x00000004,\n",
            "}",
        ]
        .concat()
    );
}

#[test]
fn write_flags_debug_empty() {
    let body = write_in(0, 0, 0, 0, 0, 0);
    let buf = message(FUSE_WRITE, 123, &body);
    let request = FuseRequest::new(&buf, FuseLayout::latest()).unwrap();
    let req = WriteRequest::from_fuse_request(&request).unwrap();
    assert_eq!(req.flags().debug_text(), b"WriteRequestFlags {}".to_vec());
}
