use std::cell::RefCell;

use fuse::encode::checked_response_len;
use fuse::freebsd;
use fuse::linux::{FuseSubtype, MountSource, MountType};
use fuse::node::{CacheTimeout, Node, NodeId};
use fuse::node_name::{name_max, NodeName};
use fuse::operations::fuse_init::{FuseInitFlag, FuseInitFlags};
use fuse::operations::statfs::{StatfsAttributes, StatfsResponse};
use fuse::server::{RecvError, ReplySender, SendError, Socket};
use fuse::xattr::{
    xattr_list_max, xattr_name_max, xattr_size_max, XattrError, XattrErrorKind, XattrName, XattrValue,
};

struct CaptureSocket {
    sent: RefCell<Vec<Vec<u8>>>,
}

impl Socket for CaptureSocket {
    type Error = ();

    fn recv(&self, _buf: &mut [u8]) -> Result<usize, RecvError<()>> {
        Err(RecvError::ConnectionClosed(()))
    }

    fn send(&self, buf: &[u8]) -> Result<(), SendError<()>> {
        self.sent.borrow_mut().push(buf.to_vec());
        Ok(())
    }
}

#[test]
fn platform_limits() {
    assert_eq!(name_max(), Some(1024));
    assert_eq!(xattr_list_max(), Some(65536));
    assert_eq!(xattr_name_max(), Some(255));
    assert_eq!(xattr_size_max(), Some(65536));
}

#[test]
fn xattr_error_kinds() {
    assert_eq!(XattrError::exceeds_list_max(70000).kind(), XattrErrorKind::ExceedsListMax(70000));
    assert_eq!(XattrError::exceeds_capacity(10, 5).kind(), XattrErrorKind::ExceedsCapacity(10, 5));
    assert_eq!(XattrError::exceeds_size_max(65537).kind(), XattrErrorKind::ExceedsSizeMax(65537));
    assert_eq!(
        XattrError::exceeds_request_size(12, 8).kind(),
        XattrErrorKind::ExceedsRequestSize(12, 8)
    );
}

#[test]
fn freebsd_named_errors() {
    assert_eq!(freebsd::e2big().raw_fuse_error_code(), -7);
    assert_eq!(freebsd::interrupted().raw_fuse_error_code(), -4);
    assert_eq!(freebsd::unimplemented().raw_fuse_error_code(), -78);
}

#[test]
fn response_len_limit() {
    assert_eq!(checked_response_len(0), Some(16));
    assert_eq!(checked_response_len(100), Some(116));
    assert_eq!(checked_response_len(0xFFFF_FFFF - 16), Some(0xFFFF_FFFF));
    assert_eq!(checked_response_len(0xFFFF_FFFF - 15), None);
    assert_eq!(checked_response_len(usize::MAX), None);
}

#[test]
fn node_setters_read_back() {
    let mut node = Node::new();
    assert_eq!(node.id(), None);
    let id = NodeId::new(42).unwrap();
    node.set_id(id);
    assert_eq!(node.id(), Some(id));
    assert!(!id.is_root());
    assert!(NodeId::new(1).unwrap().is_root());

    node.set_cache_timeout(CacheTimeout { seconds: 3, nanos: 500 });
    node.set_attr_cache_timeout(CacheTimeout { seconds: 7, nanos: 9 });
    assert_eq!(node.cache_timeout(), CacheTimeout { seconds: 3, nanos: 500 });
    assert_eq!(node.attr_cache_timeout(), CacheTimeout { seconds: 7, nanos: 9 });

    let mut out: Vec<u8> = Vec::new();
    node.encode_entry(&mut out, 9);
    assert_eq!(out.len(), 128);
    assert_eq!(&out[0..8], &42u64.to_le_bytes());
    assert_eq!(&out[16..24], &3u64.to_le_bytes());
    assert_eq!(&out[24..32], &7u64.to_le_bytes());
    assert_eq!(&out[32..36], &500u32.to_le_bytes());
    assert_eq!(&out[36..40], &9u32.to_le_bytes());

    let mut old: Vec<u8> = Vec::new();
    node.encode_entry(&mut old, 8);
    assert_eq!(old.len(), 120);
    assert_eq!(&old[..], &out[..120]);
}

#[test]
fn init_flags_unset() {
    let mut flags = FuseInitFlags::new();
    flags.set(FuseInitFlag::ASYNC_READ);
    flags.set(FuseInitFlag::BIG_WRITES);
    assert!(flags.get(FuseInitFlag::BIG_WRITES));
    flags.unset(FuseInitFlag::BIG_WRITES);
    assert!(!flags.get(FuseInitFlag::BIG_WRITES));
    assert!(flags.get(FuseInitFlag::ASYNC_READ));
    assert_eq!(flags.to_bits(), 1);
}

#[test]
fn statfs_response_from_attributes() {
    let mut attrs = StatfsAttributes::new();
    attrs.set_block_count(10);
    attrs.set_inodes_free(4);
    let resp = StatfsResponse::from_attributes(attrs);
    assert_eq!(resp.attributes().block_count(), 10);
    assert_eq!(resp.attributes().inodes_free(), 4);
}

#[test]
fn reply_sender_concatenates_payload_parts() {
    let socket = CaptureSocket { sent: RefCell::new(Vec::new()) };
    ReplySender { socket: &socket, request_id: 9 }.send_2(b"ab", b"cde").unwrap();
    ReplySender { socket: &socket, request_id: 10 }.send_3(b"x", b"", b"yz").unwrap();
    let sent = socket.sent.borrow();
    assert_eq!(sent.len(), 2);
    let mut first: Vec<u8> = Vec::new();
    first.extend_from_slice(&21u32.to_le_bytes());
    first.extend_from_slice(&0i32.to_le_bytes());
    first.extend_from_slice(&9u64.to_le_bytes());
    first.extend_from_slice(b"abcde");
    assert_eq!(sent[0], first);
    let mut second: Vec<u8> = Vec::new();
    second.extend_from_slice(&19u32.to_le_bytes());
    second.extend_from_slice(&0i32.to_le_bytes());
    second.extend_from_slice(&10u64.to_le_bytes());
    second.extend_from_slice(b"xyz");
    assert_eq!(sent[1], second);
}

#[test]
fn unchecked_constructors_keep_bytes() {
    assert_eq!(NodeName::new_unchecked("file").as_bytes(), b"file");
    assert_eq!(NodeName::from_bytes_unchecked(b"dir").as_bytes(), b"dir");
    assert_eq!(XattrName::new_unchecked("user.a").as_bytes(), b"user.a");
    assert_eq!(XattrName::from_bytes_unchecked(b"user.b").as_bytes(), b"user.b");
    assert_eq!(XattrValue::new_unchecked(b"").size(), 0);
    assert_eq!(XattrValue::new_unchecked(b"val").as_bytes(), b"val");
    assert_eq!(MountSource::new_unchecked(b"/dev/sda1").to_bytes(), b"/dev/sda1");
    assert_eq!(MountType::new_unchecked(b"fuse.sshfs").to_bytes(), b"fuse.sshfs");
    assert_eq!(MountType::new_unchecked(b"fuse"), MountType::fuse());
    assert_eq!(FuseSubtype::new_unchecked(b"sshfs").to_bytes(), b"sshfs");
    assert_eq!(freebsd::FuseSubtype::new_unchecked(b"a,b").to_bytes(), b"a,b");
}
