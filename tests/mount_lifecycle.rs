use std::collections::HashSet;

use isomount::coordinator::{
    MountCommand, MountEvent, MountTransaction, UnmountCommand, UnmountEvent,
};
use isomount::remote::{
    CallFailure, RemoteCall, UDISKS2_FILESYSTEM_INTERFACE, UDISKS2_LOOP_INTERFACE,
    UDISKS2_MANAGER_INTERFACE, UDISKS2_MANAGER_PATH, UDISKS2_SERVICE,
};
use isomount::udisks2::{MountError, Step};
use isomount::{IsoMounter, MountedIso};

/// A stand-in for the service: hands out loop paths in turn, records every call, and can
/// be told to fail one kind of call.
struct StubService {
    files: HashSet<String>,
    next_loop: usize,
    mount_root: String,
    mount_points: Vec<Vec<u8>>,
    fail: Option<(&'static str, CallFailure)>,
    loops: HashSet<String>,
    mounts: HashSet<String>,
    calls: Vec<String>,
}

impl StubService {
    fn new(files: &[&str]) -> StubService {
        StubService {
            files: files.iter().map(|f| f.to_string()).collect(),
            next_loop: 0,
            mount_root: "/media/iso".to_string(),
            mount_points: vec![b"/media/iso1".to_vec()],
            fail: None,
            loops: HashSet::new(),
            mounts: HashSet::new(),
            calls: Vec::new(),
        }
    }

    fn failure(&self, member: &str) -> Option<CallFailure> {
        match &self.fail {
            Some((m, CallFailure::Transport { message })) if *m == member => {
                Some(CallFailure::Transport { message: message.clone() })
            }
            Some((m, CallFailure::Rejected { message })) if *m == member => {
                Some(CallFailure::Rejected { message: message.clone() })
            }
            _ => None,
        }
    }

    fn check_address(call: &RemoteCall) {
        let target = call.target();
        assert_eq!(target.service, UDISKS2_SERVICE);
        let interface = match call {
            RemoteCall::LoopSetup { .. } => UDISKS2_MANAGER_INTERFACE,
            RemoteCall::Delete { .. } => UDISKS2_LOOP_INTERFACE,
            _ => UDISKS2_FILESYSTEM_INTERFACE,
        };
        assert_eq!(target.interface, interface);
        if let RemoteCall::LoopSetup { .. } = call {
            assert_eq!(target.path, UDISKS2_MANAGER_PATH);
        }
    }

    fn mount_reply(&mut self, call: &RemoteCall) -> MountEvent {
        Self::check_address(call);
        let member = call.member();
        self.calls.push(format!("{} {}", member, call.target().path));
        let failed = self.failure(member);
        match call {
            RemoteCall::LoopSetup { .. } => match failed {
                Some(f) => MountEvent::LoopSetupReturned(Err(f)),
                None => {
                    let path = format!("/org/freedesktop/UDisks2/block_devices/loop{}", self.next_loop);
                    self.next_loop += 1;
                    self.loops.insert(path.clone());
                    MountEvent::LoopSetupReturned(Ok(path))
                }
            },
            RemoteCall::Mount { filesystem } => match failed {
                Some(f) => MountEvent::MountReturned(Err(f)),
                None => {
                    self.mounts.insert(filesystem.path.clone());
                    MountEvent::MountReturned(Ok(format!("{}{}", self.mount_root, self.next_loop)))
                }
            },
            RemoteCall::ReadMountPoints { .. } => match failed {
                Some(f) => MountEvent::MountPointsRead(Err(f)),
                None => MountEvent::MountPointsRead(Ok(self.mount_points.clone())),
            },
            _ => panic!("teardown call during a mount"),
        }
    }

    fn unmount_reply(&mut self, call: &RemoteCall) -> UnmountEvent {
        Self::check_address(call);
        let member = call.member();
        let path = call.target().path.clone();
        self.calls.push(format!("{} {}", member, path));
        let failed = self.failure(member);
        match call {
            RemoteCall::Unmount { .. } => match failed {
                Some(f) => UnmountEvent::UnmountReturned(Err(f)),
                None => {
                    self.mounts.remove(&path);
                    UnmountEvent::UnmountReturned(Ok(()))
                }
            },
            RemoteCall::Delete { .. } => match failed {
                Some(f) => UnmountEvent::DeleteReturned(Err(f)),
                None => {
                    self.loops.remove(&path);
                    UnmountEvent::DeleteReturned(Ok(()))
                }
            },
            _ => panic!("mount call during a teardown"),
        }
    }

    fn remote_calls(&self) -> usize {
        self.calls.len()
    }
}

fn open_source(svc: &StubService, path: &str) -> MountEvent {
    if svc.files.contains(path) {
        MountEvent::SourceOpened
    } else {
        MountEvent::SourceMissing
    }
}

fn step(tx: &mut MountTransaction, event: MountEvent) -> MountCommand {
    assert!(tx.accepts(&event));
    tx.advance(event)
}

fn mount(svc: &mut StubService, mounter: &IsoMounter, path: &str) -> Result<MountedIso, MountError> {
    let (mut tx, mut cmd) = mounter.mount_iso(path.to_string());
    loop {
        let event = match cmd {
            MountCommand::OpenSource { path } => open_source(svc, &path),
            MountCommand::Call(call) => svc.mount_reply(&call),
            MountCommand::Finish(result) => return result,
        };
        cmd = step(&mut tx, event);
    }
}

fn unmount(svc: &mut StubService, mounter: &IsoMounter, handle: MountedIso) -> Result<(), MountError> {
    let (mut tx, mut cmd) = mounter.unmount_iso(handle);
    loop {
        let event = match cmd {
            UnmountCommand::Call(call) => svc.unmount_reply(&call),
            UnmountCommand::Finish(result) => return result,
        };
        assert!(tx.accepts(&event));
        cmd = tx.advance(event);
    }
}

#[test]
fn mount_then_unmount_scenario() {
    let mut svc = StubService::new(&["/tmp/test.iso"]);
    svc.next_loop = 0;
    svc.mount_root = "/media/iso".to_string();
    let mounter = IsoMounter::new();
    // the stub's first mount path is "/media/iso1"
    let handle = mount(&mut svc, &mounter, "/tmp/test.iso").expect("mount succeeds");
    assert_eq!(handle.mount_path, "/media/iso1");
    assert_eq!(handle.iso_path, "/tmp/test.iso");
    assert_eq!(handle.filesystem.object_path(), "/org/freedesktop/UDisks2/block_devices/loop0");
    assert_eq!(unmount(&mut svc, &mounter, handle).ok(), Some(()));
    assert_eq!(
        svc.calls,
        vec![
            "LoopSetup /org/freedesktop/UDisks2/Manager",
            "Mount /org/freedesktop/UDisks2/block_devices/loop0",
            "MountPoints /org/freedesktop/UDisks2/block_devices/loop0",
            "Unmount /org/freedesktop/UDisks2/block_devices/loop0",
            "Delete /org/freedesktop/UDisks2/block_devices/loop0",
        ]
    );
}

#[test]
fn round_trip_leaves_no_residual_state() {
    let mut svc = StubService::new(&["/tmp/a.iso"]);
    let mounter = IsoMounter::new();
    let handle = mount(&mut svc, &mounter, "/tmp/a.iso").expect("mount succeeds");
    assert_eq!(svc.loops.len(), 1);
    assert_eq!(svc.mounts.len(), 1);
    unmount(&mut svc, &mounter, handle).expect("unmount succeeds");
    assert!(svc.loops.is_empty());
    assert!(svc.mounts.is_empty());
}

#[test]
fn missing_source_makes_no_remote_call() {
    let mut svc = StubService::new(&[]);
    let mounter = IsoMounter::new();
    let result = mount(&mut svc, &mounter, "/tmp/missing.iso");
    match result {
        Err(MountError::SourceNotFound { path }) => assert_eq!(path, "/tmp/missing.iso"),
        _ => panic!("expected SourceNotFound"),
    }
    assert_eq!(svc.remote_calls(), 0);
}

#[test]
fn unreadable_source_fails_before_any_call() {
    let mounter = IsoMounter::new();
    let (mut tx, cmd) = mounter.mount_iso("/root/locked.iso".to_string());
    assert!(matches!(cmd, MountCommand::OpenSource { ref path } if path == "/root/locked.iso"));
    let next = step(&mut tx, MountEvent::SourceUnreadable { message: "permission denied".to_string() });
    match next {
        MountCommand::Finish(Err(MountError::SourceUnreadable { path, message })) => {
            assert_eq!(path, "/root/locked.iso");
            assert_eq!(message, "permission denied");
        }
        _ => panic!("expected SourceUnreadable"),
    }
    assert!(!tx.accepts(&MountEvent::SourceOpened));
}

#[test]
fn empty_mount_points_fail_verification() {
    let mut svc = StubService::new(&["/tmp/a.iso"]);
    svc.mount_points = Vec::new();
    let mounter = IsoMounter::new();
    match mount(&mut svc, &mounter, "/tmp/a.iso") {
        Err(MountError::VerificationFailure { object_path }) => {
            assert_eq!(object_path, "/org/freedesktop/UDisks2/block_devices/loop0");
        }
        _ => panic!("expected VerificationFailure"),
    }
}

#[test]
fn unmount_failure_still_deletes() {
    let mut svc = StubService::new(&["/tmp/a.iso"]);
    let mounter = IsoMounter::new();
    let handle = mount(&mut svc, &mounter, "/tmp/a.iso").expect("mount succeeds");
    svc.fail = Some(("Unmount", CallFailure::Rejected { message: "target is busy".to_string() }));
    match unmount(&mut svc, &mounter, handle) {
        Err(MountError::TeardownFailure { unmount: Some(CallFailure::Rejected { message }), delete: None }) => {
            assert_eq!(message, "target is busy");
        }
        _ => panic!("expected TeardownFailure for the unmount alone"),
    }
    let deletes = svc.calls.iter().filter(|c| c.starts_with("Delete ")).count();
    assert_eq!(deletes, 1);
    assert!(svc.loops.is_empty());
}

#[test]
fn teardown_reports_both_failures() {
    let mounter = IsoMounter::new();
    let mut svc = StubService::new(&["/tmp/a.iso"]);
    let handle = mount(&mut svc, &mounter, "/tmp/a.iso").expect("mount succeeds");
    let (mut tx, cmd) = mounter.unmount_iso(handle);
    assert!(matches!(cmd, UnmountCommand::Call(RemoteCall::Unmount { .. })));
    let next = tx.advance(UnmountEvent::UnmountReturned(Err(CallFailure::Transport {
        message: "bus closed".to_string(),
    })));
    assert!(matches!(next, UnmountCommand::Call(RemoteCall::Delete { .. })));
    let last = tx.advance(UnmountEvent::DeleteReturned(Err(CallFailure::Rejected {
        message: "no such device".to_string(),
    })));
    match last {
        UnmountCommand::Finish(Err(MountError::TeardownFailure {
            unmount: Some(CallFailure::Transport { .. }),
            delete: Some(CallFailure::Rejected { message }),
        })) => assert_eq!(message, "no such device"),
        _ => panic!("expected both failures"),
    }
    assert!(!tx.accepts(&UnmountEvent::DeleteReturned(Ok(()))));
}

#[test]
fn two_mounts_are_independent() {
    let mut svc = StubService::new(&["/tmp/a.iso", "/tmp/b.iso"]);
    let mounter = IsoMounter::new();
    let a = mount(&mut svc, &mounter, "/tmp/a.iso").expect("first mount");
    let b = mount(&mut svc, &mounter, "/tmp/b.iso").expect("second mount");
    assert_ne!(a.filesystem.object_path(), b.filesystem.object_path());
    assert_ne!(a.mount_path, b.mount_path);
    assert_eq!(a.iso_path, "/tmp/a.iso");
    assert_eq!(b.iso_path, "/tmp/b.iso");
    unmount(&mut svc, &mounter, a).expect("first unmount");
    assert_eq!(svc.loops.len(), 1);
    unmount(&mut svc, &mounter, b).expect("second unmount");
    assert!(svc.loops.is_empty());
}

#[test]
fn permission_error_at_loop_setup_stops_the_mount() {
    let mut svc = StubService::new(&["/tmp/test.iso"]);
    svc.fail = Some(("LoopSetup", CallFailure::Transport {
        message: "org.freedesktop.UDisks2.Error.NotAuthorized".to_string(),
    }));
    let mounter = IsoMounter::new();
    match mount(&mut svc, &mounter, "/tmp/test.iso") {
        Err(MountError::TransportFailure { step, message }) => {
            assert_eq!(step, Step::LoopSetup);
            assert_eq!(message, "org.freedesktop.UDisks2.Error.NotAuthorized");
        }
        _ => panic!("expected TransportFailure"),
    }
    assert_eq!(svc.calls, vec!["LoopSetup /org/freedesktop/UDisks2/Manager"]);
}

#[test]
fn rejected_mount_is_a_remote_call_failure() {
    let mut svc = StubService::new(&["/tmp/test.iso"]);
    svc.fail = Some(("Mount", CallFailure::Rejected { message: "already mounted".to_string() }));
    let mounter = IsoMounter::new();
    match mount(&mut svc, &mounter, "/tmp/test.iso") {
        Err(MountError::RemoteCallFailure { step, message }) => {
            assert_eq!(step, Step::Mount);
            assert_eq!(message, "already mounted");
        }
        _ => panic!("expected RemoteCallFailure"),
    }
}

#[test]
fn failed_mount_point_read_names_its_step() {
    let mut svc = StubService::new(&["/tmp/test.iso"]);
    svc.fail = Some(("MountPoints", CallFailure::Transport { message: "timeout".to_string() }));
    let mounter = IsoMounter::new();
    assert!(matches!(
        mount(&mut svc, &mounter, "/tmp/test.iso"),
        Err(MountError::TransportFailure { step: Step::MountPoints, .. })
    ));
}

#[test]
fn transaction_refuses_out_of_order_events() {
    let mounter = IsoMounter::new();
    let (tx, _) = mounter.mount_iso("/tmp/a.iso".to_string());
    assert!(!tx.accepts(&MountEvent::MountReturned(Ok("/media/x".to_string()))));
    assert!(tx.accepts(&MountEvent::SourceMissing));
}
