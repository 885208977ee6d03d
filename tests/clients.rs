use isomount::remote::{
    CallFailure, RemoteCall, RemoteObject, UDISKS2_FILESYSTEM_INTERFACE, UDISKS2_LOOP_INTERFACE,
    UDISKS2_SERVICE,
};
use isomount::udisks2::{MountError, Step};
use isomount::{UDisks2Filesystem, UDisks2Manager};

#[test]
fn manager_addresses_the_well_known_object() {
    let manager = UDisks2Manager::new();
    let call = manager.setup_loop_device();
    assert_eq!(call.member(), "LoopSetup");
    let target = call.target();
    assert_eq!(target.service, "org.freedesktop.UDisks2");
    assert_eq!(target.path, "/org/freedesktop/UDisks2/Manager");
    assert_eq!(target.interface, "org.freedesktop.UDisks2.Manager");
}

#[test]
fn filesystem_calls_target_its_object() {
    let fs = UDisks2Filesystem::new("/org/freedesktop/UDisks2/block_devices/loop7".to_string());
    assert_eq!(fs.object_path(), "/org/freedesktop/UDisks2/block_devices/loop7");
    for (call, member) in [(fs.mount(), "Mount"), (fs.read_mount_points(), "MountPoints"), (fs.unmount(), "Unmount")] {
        assert_eq!(call.member(), member);
        assert_eq!(call.target().service, UDISKS2_SERVICE);
        assert_eq!(call.target().path, "/org/freedesktop/UDisks2/block_devices/loop7");
        assert_eq!(call.target().interface, UDISKS2_FILESYSTEM_INTERFACE);
    }
    let delete = fs.delete();
    assert!(matches!(delete, RemoteCall::Delete { .. }));
    assert_eq!(delete.member(), "Delete");
    assert_eq!(delete.target().interface, UDISKS2_LOOP_INTERFACE);
    assert_eq!(delete.target().path, "/org/freedesktop/UDisks2/block_devices/loop7");
}

#[test]
fn verify_mount_point_needs_one_entry() {
    let fs = UDisks2Filesystem::new("/org/freedesktop/UDisks2/block_devices/loop1".to_string());
    assert!(fs.verify_mount_point(&vec![b"/media/iso1".to_vec()]).is_ok());
    match fs.verify_mount_point(&Vec::new()) {
        Err(MountError::VerificationFailure { object_path }) => {
            assert_eq!(object_path, "/org/freedesktop/UDisks2/block_devices/loop1")
        }
        _ => panic!("expected VerificationFailure"),
    }
}

#[test]
fn call_failures_map_to_error_kinds() {
    let t = MountError::from_call(Step::Delete, CallFailure::Transport { message: "gone".to_string() });
    assert!(matches!(t, MountError::TransportFailure { step: Step::Delete, ref message } if message == "gone"));
    let r = MountError::from_call(Step::Unmount, CallFailure::Rejected { message: "busy".to_string() });
    assert!(matches!(r, MountError::RemoteCallFailure { step: Step::Unmount, ref message } if message == "busy"));
}

#[test]
fn remote_object_copies_keep_the_address() {
    let o = RemoteObject::udisks("/a/b", "x.y.Z");
    let d = o.duplicate();
    assert_eq!(d.service, UDISKS2_SERVICE);
    assert_eq!(d.path, "/a/b");
    assert_eq!(d.interface, "x.y.Z");
}

#[test]
fn manager_copies_address_the_same_object() {
    let manager = UDisks2Manager::new().duplicate();
    let call = manager.setup_loop_device();
    assert_eq!(call.target().path, "/org/freedesktop/UDisks2/Manager");
    assert_eq!(call.target().interface, "org.freedesktop.UDisks2.Manager");
}
