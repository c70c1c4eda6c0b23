use fuse::file_mode::FileType;
use fuse::kernel::FUSE_SETATTR;
use fuse::lock::LockOwner;
use fuse::operations::setattr::SetattrRequest;
use fuse::server::{FuseLayout, FuseRequest};
use fuse::time::UnixTime;

const UNIQUE: u64 = 0xAABBCCDD;

fn message(opcode: u32, nodeid: u64, body: &[u8]) -> Vec<u8> {
    let mut v: Vec<u8> = Vec::new();
    v.extend_from_slice(&((40 + body.len()) as u32).to_le_bytes());
    v.extend_from_slice(&opcode.to_le_bytes());
    v.extend_from_slice(&UNIQUE.to_le_bytes());
    v.extend_from_slice(&nodeid.to_le_bytes());
    v.extend_from_slice(&0u32.to_le_bytes());
    v.extend_from_slice(&0u32.to_le_bytes());
    v.extend_from_slice(&0u32.to_le_bytes());
    v.extend_from_slice(&0u32.to_le_bytes());
    v.extend_from_slice(body);
    v
}

fn le32(v: u32) -> [u8; 4] {
    v.to_le_bytes()
}

fn le64(v: u64) -> [u8; 8] {
    v.to_le_bytes()
}

const S_IFREG: u32 = 0o100000;

#[allow(clippy::too_many_arguments)]
fn setattr_in(
    valid: u32,
    fh: u64,
    size: u64,
    lock_owner: u64,
    times: (u64, u64, u64),
    nanos: (u32, u32, u32),
    mode: u32,
    uid: u32,
    gid: u32,
) -> Vec<u8> {
    let mut v: Vec<u8> = Vec::new();
    v.extend_from_slice(&le32(valid));
    v.extend_from_slice(&le32(0));
    v.extend_from_slice(&le64(fh));
    v.extend_from_slice(&le64(size));
    v.extend_from_slice(&le64(lock_owner));
    v.extend_from_slice(&le64(times.0));
    v.extend_from_slice(&le64(times.1));
    v.extend_from_slice(&le64(times.2));
    v.extend_from_slice(&le32(nanos.0));
    v.extend_from_slice(&le32(nanos.1));
    v.extend_from_slice(&le32(nanos.2));
    v.extend_from_slice(&le32(mode));
    v.extend_from_slice(&le32(0));
    v.extend_from_slice(&le32(uid));
    v.extend_from_slice(&le32(gid));
    v.extend_from_slice(&le32(0));
    v
}

fn full_request_bytes() -> Vec<u8> {
    let body = setattr_in(0xFFFF, 1, 2, 3, (4, 5, 6), (7, 8, 9), S_IFREG | 0o644, 12, 13);
    message(FUSE_SETATTR, 1000, &body)
}

#[test]
fn setattr_test_request() {
    let buf = full_request_bytes();
    let request = FuseRequest::new(&buf, FuseLayout::latest()).unwrap();
    let request = SetattrRequest::from_fuse_request(&request).unwrap();

    assert_eq!(request.node_id(), fuse::node::NodeId::new(1000).unwrap());
    assert_eq!(request.handle(), Some(1));
    assert_eq!(request.size(), Some(2));
    assert_eq!(request.lock_owner(), Some(LockOwner(3)));
    assert_eq!(request.atime(), UnixTime::new(4, 7));
    assert_eq!(request.atime_now(), true);
    assert_eq!(request.mtime(), UnixTime::new(5, 8));
    assert_eq!(request.mtime_now(), true);
    assert_eq!(request.ctime(), UnixTime::new(6, 9));
    assert_eq!(request.user_id(), Some(12));
    assert_eq!(request.group_id(), Some(13));

    let mode = request.mode().unwrap();
    assert_eq!(FileType::from_mode(mode), Some(FileType::Regular));
    assert_eq!(mode.permissions(), 0o644);
}

#[test]
fn request_negative_unix_times() {
    let body = setattr_in(
        0xFFFF,
        0,
        0,
        0,
        (-4_i64 as u64, -5_i64 as u64, -6_i64 as u64),
        (7, 8, 9),
        0,
        0,
        0,
    );
    let buf = message(FUSE_SETATTR, 1000, &body);
    let request = FuseRequest::new(&buf, FuseLayout::latest()).unwrap();
    let request = SetattrRequest::from_fuse_request(&request).unwrap();

    assert_eq!(request.atime(), UnixTime::new(-4, 7));
    assert_eq!(request.mtime(), UnixTime::new(-5, 8));
    assert_eq!(request.ctime(), UnixTime::new(-6, 9));
}

#[test]
fn setattr_test_request_impl_debug() {
    let buf = full_request_bytes();
    let request = FuseRequest::new(&buf, FuseLayout::latest()).unwrap();
    let request = SetattrRequest::from_fuse_request(&request).unwrap();

    assert_eq!(
        request.debug_string(),
        [
            "SetattrRequest {\n",
            "    node_id: 1000,\n",
            "    handle: Some(1),\n",
            "    size: Some(2),\n",
            "    lock_owner: Some(0x0000000000000003),\n",
            "    atime: Some(UnixTime(4.000000007)),\n",
            "    atime_now: true,\n",
            "    mtime: Some(UnixTime(5.000000008)),\n",
            "    mtime_now: true,\n",
            "    ctime: Some(UnixTime(6.000000009)),\n",
            "    mode: Some(0o100644),\n",
            "    user_id: Some(12),\n",
            "    group_id: Some(13),\n",
            "}",
        ].concat(),
    );
}

#[test]
fn setattr_nothing_valid() {
    let body = setattr_in(0, 1, 2, 3, (4, 5, 6), (7, 8, 9), 0o644, 12, 13);
    let buf = message(FUSE_SETATTR, 1000, &body);
    let request = FuseRequest::new(&buf, FuseLayout::latest()).unwrap();
    let request = SetattrRequest::from_fuse_request(&request).unwrap();
    assert_eq!(request.handle(), None);
    assert_eq!(request.size(), None);
    assert_eq!(request.lock_owner(), None);
    assert_eq!(request.atime(), None);
    assert_eq!(request.atime_now(), false);
    assert_eq!(request.mode(), None);
    assert_eq!(request.user_id(), None);
}

#[test]
fn setattr_nanos_overflow_is_refused() {
    let body = setattr_in(fuse::kernel::FATTR_MTIME, 0, 0, 0, (0, 5, 0), (0, 1_000_000_000, 0), 0, 0, 0);
    let buf = message(FUSE_SETATTR, 1000, &body);
    let request = FuseRequest::new(&buf, FuseLayout::latest()).unwrap();
    assert_eq!(
        SetattrRequest::from_fuse_request(&request).err(),
        Some(fuse::error::RequestError::TimestampOverflow)
    );
}
