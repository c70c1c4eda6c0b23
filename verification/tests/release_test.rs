use fuse::kernel::{FUSE_RELEASE, FUSE_RELEASEDIR, FUSE_RELEASE_FLOCK_UNLOCK, FUSE_ROOT_ID};
use fuse::lock::LockOwner;
use fuse::operations::release::ReleaseRequest;
use fuse::operations::releasedir::{ReleasedirRequest, ReleasedirResponse};
use fuse::server::{FuseLayout, FuseRequest};

const UNIQUE: u64 = 0xAABBCCDD;

fn message(opcode: u32, nodeid: u64, body: &[u8]) -> Vec<u8> {
    let mut v: Vec<u8> = Vec::new();
    v.extend_from_slice(&((40 + body.len()) as u32).to_le_bytes());
    v.extend_from_slice(&opcode.to_le_bytes());
    v.extend_from_slice(&UNIQUE.to_le_bytes());
    v.extend_from_slice(&nodeid.to_le_bytes());
    v.extend_from_slice(&0u32.to_le_bytes());
    v.extend_from_slice(&0u32.to_le_bytes());
    v.extend_from_slice(&0u32.to_le_bytes());
    v.extend_from_slice(&0u32.to_le_bytes());
    v.extend_from_slice(body);
    v
}

fn le32(v: u32) -> [u8; 4] {
    v.to_le_bytes()
}

fn le64(v: u64) -> [u8; 8] {
    v.to_le_bytes()
}

const DUMMY_RELEASE_FLAG: u32 = 0x80000000;

fn release_in(fh: u64, flags: u32, release_flags: u32, lock_owner: u64) -> Vec<u8> {
    let mut v: Vec<u8> = Vec::new();
    v.extend_from_slice(&le64(fh));
    v.extend_from_slice(&le32(flags));
    v.extend_from_slice(&le32(release_flags));
    v.extend_from_slice(&le64(lock_owner));
    v
}

fn release_in_v7p1(fh: u64, flags: u32) -> Vec<u8> {
    let mut v: Vec<u8> = Vec::new();
    v.extend_from_slice(&le64(fh));
    v.extend_from_slice(&le32(flags));
    v.extend_from_slice(&le32(0));
    v
}

fn layout(minor: u16) -> FuseLayout {
    FuseLayout::with_version(minor, false)
}

#[test]
fn release_test_request_v7p1() {
    let buf = message(FUSE_RELEASE, 123, &release_in_v7p1(123, 0xFF));
    let request = FuseRequest::new(&buf, layout(1)).unwrap();
    let req = ReleaseRequest::from_fuse_request(&request).unwrap();
    assert_eq!(req.handle(), 123);
    assert_eq!(req.open_flags(), 0xFF);
    assert_eq!(req.lock_owner(), None);
}

#[test]
fn release_test_request_v7p8() {
    let buf = message(FUSE_RELEASE, 123, &release_in(123, 0xFF, 0, 0));
    let request = FuseRequest::new(&buf, layout(8)).unwrap();
    let req = ReleaseRequest::from_fuse_request(&request).unwrap();
    assert_eq!(req.handle(), 123);
    assert_eq!(req.open_flags(), 0xFF);
    assert_eq!(req.lock_owner(), None);
}

#[test]
fn release_test_request_lock_owner() {
    let body = release_in(123, 0xFF, DUMMY_RELEASE_FLAG | FUSE_RELEASE_FLOCK_UNLOCK, 123);
    let buf = message(FUSE_RELEASE, 123, &body);
    let request = FuseRequest::new(&buf, layout(8)).unwrap();
    let req = ReleaseRequest::from_fuse_request(&request).unwrap();
    assert_eq!(req.lock_owner(), Some(LockOwner(123)));
}

#[test]
fn release_test_request_impl_debug() {
    let buf = message(FUSE_RELEASE, FUSE_ROOT_ID, &release_in(3, 0x4, 0, 0));
    let request = FuseRequest::new(&buf, FuseLayout::latest()).unwrap();
    let req = ReleaseRequest::from_fuse_request(&request).unwrap();
    assert_eq!(
        req.debug_string(),
        [
            "ReleaseRequest {\n",
            "    node_id: 1,\n",
            "    handle: 3,\n",
            "    lock_owner: None,\n",
            "    open_flags: 0x00000004,\n",
            "}",
        ].concat(),
    );
}

#[test]
fn release_request_truncated_body() {
    let buf = message(FUSE_RELEASE, 123, &release_in_v7p1(123, 0xFF));
    let request = FuseRequest::new(&buf, layout(8)).unwrap();
    assert_eq!(
        ReleaseRequest::from_fuse_request(&request).err(),
        Some(fuse::error::RequestError::UnexpectedEof)
    );
}

#[test]
fn releasedir_test_request_v7p1() {
    let buf = message(FUSE_RELEASEDIR, 123, &release_in_v7p1(123, 0xFF));
    let request = FuseRequest::new(&buf, layout(1)).unwrap();
    let req = ReleasedirRequest::from_fuse_request(&request).unwrap();
    assert_eq!(req.handle(), 123);
    assert_eq!(req.open_flags(), 0xFF);
    assert_eq!(req.lock_owner(), None);
}

#[test]
fn releasedir_test_request_v7p8() {
    let buf = message(FUSE_RELEASEDIR, 123, &release_in(123, 0xFF, 0, 0));
    let request = FuseRequest::new(&buf, layout(8)).unwrap();
    let req = ReleasedirRequest::from_fuse_request(&request).unwrap();
    assert_eq!(req.handle(), 123);
    assert_eq!(req.open_flags(), 0xFF);
    assert_eq!(req.lock_owner(), None);
}

#[test]
fn releasedir_test_request_lock_owner() {
    let body = release_in(123, 0xFF, DUMMY_RELEASE_FLAG | FUSE_RELEASE_FLOCK_UNLOCK, 123);
    let buf = message(FUSE_RELEASEDIR, 123, &body);
    let request = FuseRequest::new(&buf, layout(8)).unwrap();
    let req = ReleasedirRequest::from_fuse_request(&request).unwrap();
    assert_eq!(req.lock_owner(), Some(LockOwner(123)));
}

#[test]
fn releasedir_test_request_impl_debug() {
    let buf = message(FUSE_RELEASEDIR, FUSE_ROOT_ID, &release_in(3, 0x4, 0, 0));
    let request = FuseRequest::new(&buf, FuseLayout::latest()).unwrap();
    let req = ReleasedirRequest::from_fuse_request(&request).unwrap();
    assert_eq!(
        req.debug_string(),
        [
            "ReleasedirRequest {\n",
            "    node_id: 1,\n",
            "    handle: 3,\n",
            "    lock_owner: None,\n",
            "    open_flags: 0x00000004,\n",
            "}",
        ].concat(),
    );
}

#[test]
fn releasedir_test_response() {
    let _resp = ReleasedirResponse::new();
    let encoded = fuse::encode::encode_reply(0, &[], &[], &[], &[]).unwrap();
    let mut expect: Vec<u8> = Vec::new();
    expect.extend_from_slice(&le32(16));
    expect.extend_from_slice(&0i32.to_le_bytes());
    expect.extend_from_slice(&le64(0));
    assert_eq!(encoded, expect);
}

#[test]
fn releasedir_test_response_impl_debug() {
    let response = ReleasedirResponse::new();
    assert_eq!(response.debug_string(), "ReleasedirResponse");
}
