use fuse::freebsd;
use fuse::linux::{FuseSubtype, MountOptions, MountSource, MountType};
use fuse::node_name::NodeName;
use fuse::operations::bmap::BmapResponse;
use fuse::operations::setlk::SetlkResponse;
use fuse::operations::setxattr::SetxattrResponse;
use fuse::operations::syncfs::SyncfsResponse;
use fuse::operations::write::WriteResponse;
use fuse::process_id::ProcessId;
use fuse::xattr::XattrName;

#[test]
fn linux_mount_options_debug_defaults() {
    let opts = MountOptions::new();
    assert_eq!(
        opts.debug_string(),
        [
            "MountOptions {\n",
            "    allow_other: false,\n",
            "    block_size: None,\n",
            "    default_permissions: false,\n",
            "    fuse_device_fd: None,\n",
            "    group_id: None,\n",
            "    max_read: None,\n",
            "    mount_source: \"fuse\",\n",
            "    mount_type: \"fuse\",\n",
            "    root_mode: None,\n",
            "    subtype: None,\n",
            "    user_id: None,\n",
            "}",
        ]
        .concat()
    );
}

#[test]
fn linux_mount_options_debug_all_set() {
    let mut opts = MountOptions::new();
    opts.set_allow_other(true);
    opts.set_block_size(Some(512));
    opts.set_default_permissions(true);
    opts.set_fuse_device_fd(Some(3));
    opts.set_group_id(Some(20));
    opts.set_max_read(Some(4096));
    opts.set_mount_source(MountSource::new(b"my\tsrc").unwrap());
    opts.set_mount_type(MountType::fuseblk());
    opts.set_root_mode(Some(0o40755));
    opts.set_subtype(Some(FuseSubtype::new(b"sub\"x").unwrap()));
    opts.set_user_id(Some(1000));
    assert_eq!(
        opts.debug_string(),
        [
            "MountOptions {\n",
            "    allow_other: true,\n",
            "    block_size: Some(512),\n",
            "    default_permissions: true,\n",
            "    fuse_device_fd: Some(3),\n",
            "    group_id: Some(20),\n",
            "    max_read: Some(4096),\n",
            "    mount_source: \"my\\tsrc\",\n",
            "    mount_type: \"fuseblk\",\n",
            "    root_mode: Some(0o40755),\n",
            "    subtype: Some(\"sub\\\"x\"),\n",
            "    user_id: Some(1000),\n",
            "}",
        ]
        .concat()
    );
}

#[test]
fn linux_mount_parts_debug() {
    assert_eq!(MountSource::fuse().debug_string(), "\"fuse\"");
    assert_eq!(MountType::fuse().debug_string(), "\"fuse\"");
    assert_eq!(MountType::fuseblk().debug_string(), "\"fuseblk\"");
    assert_eq!(FuseSubtype::new(b"caf\xc3\xa9").unwrap().debug_string(), "\"caf\\xc3\\xa9\"");
}

#[test]
fn freebsd_mount_options_debug() {
    let mut opts = freebsd::MountOptions::new();
    assert_eq!(
        opts.debug_string(),
        "MountOptions {\n    default_permissions: false,\n    subtype: None,\n}"
    );
    opts.set_default_permissions(true);
    opts.set_subtype(Some(freebsd::FuseSubtype::new(b"a,b").unwrap()));
    assert_eq!(
        opts.debug_string(),
        "MountOptions {\n    default_permissions: true,\n    subtype: Some(\"a,b\"),\n}"
    );
    assert_eq!(freebsd::FuseSubtype::new(b"x").unwrap().debug_string(), "\"x\"");
}

#[test]
fn names_debug_quoted() {
    assert_eq!(NodeName::from_bytes(b"a\"b\\c").unwrap().debug_string(), "\"a\\\"b\\\\c\"");
    assert_eq!(XattrName::from_bytes(b"user.\x01").unwrap().debug_string(), "\"user.\\x01\"");
}

#[test]
fn process_id_debug() {
    assert_eq!(ProcessId::new(4321).unwrap().debug_string(), "4321");
}

#[test]
fn responses_debug() {
    let mut bmap = BmapResponse::new();
    bmap.set_block(77);
    assert_eq!(bmap.debug_string(), "BmapResponse {\n    block: 77,\n}");
    let mut write = WriteResponse::new();
    write.set_size(4096);
    assert_eq!(write.debug_string(), "WriteResponse {\n    size: 4096,\n}");
    assert_eq!(SetlkResponse::new().debug_string(), "SetlkResponse");
    assert_eq!(SetxattrResponse::new().debug_string(), "SetxattrResponse");
    assert_eq!(SyncfsResponse::new().debug_string(), "SyncfsResponse");
}
