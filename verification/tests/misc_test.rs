use fuse::decode::Request;
use fuse::encode::encode_reply;
use fuse::error::{NodeNameError, RequestError, XattrNameError};
use fuse::kernel::{FuseInHeader, FuseOutHeader, FUSE_BMAP, FUSE_READDIRPLUS, FUSE_SETLK, FUSE_SETLKW, FUSE_UNLINK};
use fuse::lock::{Lock, LockMode, LockRange, F_UNLCK, F_WRLCK};
use fuse::node::{Node, NodeId};
use fuse::node_name::NodeName;
use fuse::operations::bmap::{BmapRequest, BmapResponse};
use fuse::operations::fuse_init::FuseInitResponse;
use fuse::operations::readdirplus::{
    ReaddirplusEntriesIter, ReaddirplusEntriesWriter, ReaddirplusEntry, ReaddirplusRequest,
};
use fuse::operations::setlk::{SetlkRequest, SetlkRequestFlag};
use fuse::operations::unlink::UnlinkRequest;
use fuse::server::{FuseLayout, FuseRequest, Version};
use fuse::xattr::XattrName;

const UNIQUE: u64 = 0xAABBCCDD;

fn message(opcode: u32, nodeid: u64, body: &[u8]) -> Vec<u8> {
    let mut v: Vec<u8> = Vec::new();
    v.extend_from_slice(&((40 + body.len()) as u32).to_le_bytes());
    v.extend_from_slice(&opcode.to_le_bytes());
    v.extend_from_slice(&UNIQUE.to_le_bytes());
    v.extend_from_slice(&nodeid.to_le_bytes());
    v.extend_from_slice(&0u32.to_le_bytes());
    v.extend_from_slice(&0u32.to_le_bytes());
    v.extend_from_slice(&0u32.to_le_bytes());
    v.extend_from_slice(&0u32.to_le_bytes());
    v.extend_from_slice(body);
    v
}

fn le32(v: u32) -> [u8; 4] {
    v.to_le_bytes()
}

fn le64(v: u64) -> [u8; 8] {
    v.to_le_bytes()
}

#[test]
fn request_header_reads_back() {
    let buf = message(FUSE_UNLINK, 77, b"name\x00");
    let request = Request::new(&buf).unwrap();
    let h: FuseInHeader = request.header();
    assert_eq!(h.len, 45);
    assert_eq!(h.opcode, FUSE_UNLINK);
    assert_eq!(h.unique, UNIQUE);
    assert_eq!(h.nodeid, 77);
    assert_eq!(request.body(), b"name\x00");
}

#[test]
fn reply_header_describes_reply() {
    let reply = encode_reply(42, b"ab", b"c", &[], b"d").unwrap();
    let h = FuseOutHeader::parse(&reply);
    assert_eq!(h.len as usize, reply.len());
    assert_eq!(h.error, 0);
    assert_eq!(h.unique, 42);
    assert_eq!(&reply[16..], b"abcd");
}

#[test]
fn unlink_request() {
    let buf = message(FUSE_UNLINK, 77, b"name\x00");
    let request = FuseRequest::new(&buf, FuseLayout::latest()).unwrap();
    let req = UnlinkRequest::from_fuse_request(&request).unwrap();
    assert_eq!(req.parent_id(), NodeId::new(77).unwrap());
    assert_eq!(req.name().as_bytes(), b"name");
}

#[test]
fn bmap_request_and_response() {
    let mut body: Vec<u8> = Vec::new();
    body.extend_from_slice(&le64(9));
    body.extend_from_slice(&le32(512));
    body.extend_from_slice(&le32(0));
    let buf = message(FUSE_BMAP, 5, &body);
    let request = FuseRequest::new(&buf, FuseLayout::latest()).unwrap();
    let req = BmapRequest::from_fuse_request(&request).unwrap();
    assert_eq!(req.node_id(), 5);
    assert_eq!(req.block(), 9);
    assert_eq!(req.blocksize(), 512);

    let mut resp = BmapResponse::new();
    resp.set_block(1234);
    assert_eq!(resp.payload(), le64(1234).to_vec());
}

#[test]
fn node_names_are_checked() {
    assert_eq!(NodeName::from_bytes(b"").err(), Some(NodeNameError::Empty));
    assert_eq!(NodeName::from_bytes(b"a/b").err(), Some(NodeNameError::ContainsSlash));
    assert_eq!(NodeName::from_bytes(b"a\0b").err(), Some(NodeNameError::ContainsNul));
    assert_eq!(NodeName::from_bytes(&[b'x'; 1025]).err(), Some(NodeNameError::ExceedsMaxLen));
    let name = NodeName::from_bytes(b"ok.txt").unwrap();
    assert_eq!(name.as_str().unwrap(), "ok.txt");
    assert!(NodeName::from_bytes(&[0xFF, 0xFE]).unwrap().as_str().is_err());
}

#[test]
fn xattr_names_are_checked() {
    assert_eq!(XattrName::from_bytes(b"").err(), Some(XattrNameError::Empty));
    assert_eq!(XattrName::from_bytes(b"a\0").err(), Some(XattrNameError::ContainsNul));
    let name = XattrName::from_bytes(b"user.a").unwrap();
    assert_eq!(name.size(), 7);
    assert_eq!(name.as_str().unwrap(), "user.a");
}

#[test]
fn readdirplus_request_offsets() {
    let mut body: Vec<u8> = Vec::new();
    body.extend_from_slice(&le64(3)); // fh
    body.extend_from_slice(&le64(0)); // offset
    body.extend_from_slice(&le32(4096)); // size
    body.extend_from_slice(&le32(0)); // read_flags
    body.extend_from_slice(&le64(0)); // lock_owner
    body.extend_from_slice(&le32(0o2)); // flags
    body.extend_from_slice(&le32(0)); // padding
    let buf = message(FUSE_READDIRPLUS, 1, &body);
    let request = FuseRequest::new(&buf, FuseLayout::latest()).unwrap();
    let req = ReaddirplusRequest::from_fuse_request(&request).unwrap();
    assert_eq!(req.offset(), None);
    assert_eq!(req.size(), 4096);
    assert_eq!(req.handle(), 3);
    assert_eq!(req.open_flags(), 2);
    assert_eq!(
        req.debug_string(),
        [
            "ReaddirplusRequest {\n",
            "    node_id: 1,\n",
            "    size: 4096,\n",
            "    offset: None,\n",
            "    handle: 3,\n",
            "    open_flags: 0x00000002,\n",
            "}",
        ]
        .concat()
    );
}

#[test]
fn readdirplus_writer_fills_to_capacity() {
    let name = NodeName::from_bytes(b"file.txt").unwrap();
    let mut node = Node::new();
    node.attr_mut().ino = 11;
    node.attr_mut().mode = 0o100644;
    let entry = ReaddirplusEntry::new(name, 1, node);
    assert_eq!(ReaddirplusEntriesWriter::entry_size(&entry), 160);

    let mut writer = ReaddirplusEntriesWriter::new(330);
    assert!(writer.try_push(&entry).is_ok());
    assert!(writer.try_push(&entry).is_ok());
    assert_eq!(writer.position(), 320);
    assert!(writer.try_push(&entry).is_err());
    assert_eq!(writer.position(), 320);

    let entries = writer.into_entries();
    let bytes = entries.as_bytes();
    assert_eq!(bytes.len(), 320);
    // The entry's dirent follows its 128-byte node entry.
    assert_eq!(&bytes[128..136], &le64(11));
    assert_eq!(&bytes[136..144], &le64(1));
    assert_eq!(&bytes[144..148], &le32(8));
    assert_eq!(&bytes[148..152], &le32(8)); // regular file type
    assert_eq!(&bytes[152..160], b"file.txt");
}

#[test]
fn readdirplus_entries_read_back() {
    let mut a = Node::new();
    a.attr_mut().ino = 11;
    a.attr_mut().mode = 0o100644;
    a.set_generation(3);
    let mut b = Node::new();
    b.attr_mut().ino = 12;
    b.attr_mut().mode = 0o040755;
    let first = ReaddirplusEntry::new(NodeName::from_bytes(b"a.txt").unwrap(), 1, a);
    let second = ReaddirplusEntry::new(NodeName::from_bytes(b"subdir-with-long-name").unwrap(), 2, b);

    let mut writer = ReaddirplusEntriesWriter::new(4096);
    assert!(writer.try_push(&first).is_ok());
    assert!(writer.try_push(&second).is_ok());
    let entries = writer.into_entries();

    let mut iter = ReaddirplusEntriesIter::new(&entries);
    let got = iter.next().unwrap();
    assert_eq!(got.name().as_bytes(), b"a.txt");
    assert_eq!(got.offset(), 1);
    assert_eq!(*got.entry(), a);
    let got = iter.next().unwrap();
    assert_eq!(got.name().as_bytes(), b"subdir-with-long-name");
    assert_eq!(got.offset(), 2);
    assert_eq!(*got.entry(), b);
    assert!(iter.next().is_none());
    assert!(iter.next().is_none());
}

#[test]
fn readdirplus_writer_capacity_is_capped() {
    assert_eq!(ReaddirplusEntriesWriter::new(1 << 20).capacity(), 65535);
    assert_eq!(ReaddirplusEntriesWriter::new(100).capacity(), 100);
}

fn lk_in(lk_type: u32, start: u64, end: u64, pid: u32, flags: u32) -> Vec<u8> {
    let mut body: Vec<u8> = Vec::new();
    body.extend_from_slice(&le64(4)); // fh
    body.extend_from_slice(&le64(99)); // owner
    body.extend_from_slice(&le64(start));
    body.extend_from_slice(&le64(end));
    body.extend_from_slice(&le32(lk_type));
    body.extend_from_slice(&le32(pid));
    body.extend_from_slice(&le32(flags));
    body.extend_from_slice(&le32(0));
    body
}

#[test]
fn setlk_requests() {
    let buf = message(FUSE_SETLKW, 8, &lk_in(F_WRLCK, 10, 20, 300, 1));
    let request = FuseRequest::new(&buf, FuseLayout::latest()).unwrap();
    let req = SetlkRequest::from_fuse_request(&request).unwrap();
    assert!(req.may_block());
    assert_eq!(req.handle(), 4);
    assert_eq!(req.owner().0, 99);
    let lock = req.lock().unwrap();
    assert_eq!(lock.mode, LockMode(F_WRLCK));
    assert_eq!(lock.range, LockRange { start: 10, end: 20 });
    assert_eq!(lock.process_id.unwrap().get(), 300);
    assert!(req.flags().get(SetlkRequestFlag::LK_FLOCK));

    let buf = message(FUSE_SETLK, 8, &lk_in(F_UNLCK, 0, u64::MAX, 0, 0));
    let request = FuseRequest::new(&buf, FuseLayout::latest()).unwrap();
    let req = SetlkRequest::from_fuse_request(&request).unwrap();
    assert!(!req.may_block());
    let lock = req.lock().unwrap();
    assert_eq!(lock.mode, LockMode(F_UNLCK));
    assert_eq!(lock.range, LockRange { start: 0, end: u64::MAX });
    assert!(lock.process_id.is_none());
    assert_eq!(req.lock_range(), LockRange { start: 0, end: u64::MAX });

    // An unlock of the 50 bytes from offset 100 reports that range.
    let buf = message(FUSE_SETLK, 2, &lk_in(F_UNLCK, 100, 149, 0, 0));
    let request = FuseRequest::new(&buf, FuseLayout::latest()).unwrap();
    let req = SetlkRequest::from_fuse_request(&request).unwrap();
    assert_eq!(
        req.lock(),
        Some(Lock { mode: LockMode(F_UNLCK), range: LockRange { start: 100, end: 149 }, process_id: None })
    );

    let buf = message(FUSE_SETLK, 8, &lk_in(7, 0, 1, 0, 0));
    let request = FuseRequest::new(&buf, FuseLayout::latest()).unwrap();
    assert_eq!(
        SetlkRequest::from_fuse_request(&request).err(),
        Some(RequestError::LockError(fuse::error::LockError::UnsupportedMode))
    );
}

#[test]
fn init_reply_size_follows_version() {
    let mut reply = FuseInitResponse::new();
    assert_eq!(reply.payload().len(), 64);
    reply.set_version(Version::new(7, 22));
    assert_eq!(reply.payload().len(), 24);
    reply.set_version(Version::new(7, 4));
    assert_eq!(reply.payload().len(), 8);
    reply.set_version(Version::new(7, 36));
    reply.set_max_background(1);
    reply.set_congestion_threshold(2);
    let p = reply.payload();
    assert_eq!(&p[16..20], &[1, 0, 2, 0]);
}

#[test]
fn freebsd_error_numbers() {
    let e = freebsd_errno::Error::new(4).unwrap();
    assert_eq!(fuse::freebsd::OsError(e).to_error().raw_fuse_error_code(), -4);
    let big = freebsd_errno::Error::new(70000).unwrap();
    assert_eq!(fuse::freebsd::fuse_error(big).raw_fuse_error_code(), -65535);
    let neg = freebsd_errno::Error::new(-3).unwrap();
    assert_eq!(fuse::freebsd::fuse_error(neg).raw_fuse_error_code(), -65535);
    assert_eq!(fuse::freebsd::interrupted().raw_fuse_error_code(), -4);
    assert_eq!(fuse::freebsd::unimplemented().raw_fuse_error_code(), -78);
}

#[test]
fn time_and_modes() {
    assert!(fuse::time::UnixTime::new(1, 1_000_000_000).is_none());
    let t = fuse::time::UnixTime::new(-1, 5).unwrap();
    assert_eq!(t.timestamp_seconds(), -1);
    assert_eq!(t.timestamp_subsec_nanos(), 5);
    let m = fuse::file_mode::FileMode::new(0o40755);
    assert_eq!(fuse::file_mode::FileType::from_mode(m), Some(fuse::file_mode::FileType::Directory));
    assert_eq!(m.permissions(), 0o755);
}
