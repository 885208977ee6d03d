//! Laws of the mount coordinator, stated over its spec state machines.
use vstd::prelude::*;
use crate::coordinator::{
    mount_accepts, mount_next, mount_output, mount_start, unmount_accepts, unmount_next,
    unmount_output, unmount_start, MountCommandView, MountEventView, MountStage,
    UnmountCommandView, UnmountEventView, UnmountStage,
};
use crate::remote::{CallView, FailureView};
use crate::udisks2::{ErrorView, HandleView};

verus! {

/// What the service holds, by object path: live loop devices and mounted filesystems.
pub struct ServiceView {
    pub loops: Set<Seq<char>>,
    pub mounts: Set<Seq<char>>,
}

/// The service after `call` succeeded; `created` is the object path that `LoopSetup` returned.
pub open spec fn service_after(svc: ServiceView, call: CallView, created: Seq<char>) -> ServiceView {
    match call {
        CallView::LoopSetup => ServiceView { loops: svc.loops.insert(created), ..svc },
        CallView::Mount { object_path } => ServiceView { mounts: svc.mounts.insert(object_path), ..svc },
        CallView::ReadMountPoints { .. } => svc,
        CallView::Unmount { object_path } => ServiceView {
            mounts: svc.mounts.remove(object_path),
            ..svc
        },
        CallView::Delete { object_path } => ServiceView { loops: svc.loops.remove(object_path), ..svc },
    }
}

/// The handle that a mount of `iso_path` hands out when the loop setup returns
/// `object_path`, the mount returns `mount_path`, and `points` mount points are read back;
/// `None` if the mount fails.
pub open spec fn mount_outcome(
    iso_path: Seq<char>,
    object_path: Seq<char>,
    mount_path: Seq<char>,
    points: nat,
) -> Option<HandleView> {
    let s0 = mount_start(iso_path).0;
    let s1 = mount_next(s0, MountEventView::SourceOpened);
    let s2 = mount_next(s1, MountEventView::LoopSetupReturned(Ok(object_path)));
    let s3 = mount_next(s2, MountEventView::MountReturned(Ok(mount_path)));
    match mount_output(s3, MountEventView::MountPointsRead(Ok(points))) {
        Some(MountCommandView::Finish(Ok(h))) => Some(h),
        _ => None,
    }
}

/// Round trip: when every call succeeds, a mount followed by the unmount of the handle it
/// gives leaves the service as it was, with no mount and no loop device at the path the
/// loop setup created.
pub proof fn lemma_mount_unmount_round_trip(
    svc: ServiceView,
    iso_path: Seq<char>,
    object_path: Seq<char>,
    mount_path: Seq<char>,
    points: nat,
)
    requires
        !svc.loops.contains(object_path),
        !svc.mounts.contains(object_path),
        points > 0,
    ensures
        ({
            let (s0, c0) = mount_start(iso_path);
            let e1 = MountEventView::SourceOpened;
            let e2 = MountEventView::LoopSetupReturned(Ok(object_path));
            let e3 = MountEventView::MountReturned(Ok(mount_path));
            let e4 = MountEventView::MountPointsRead(Ok(points));
            let s1 = mount_next(s0, e1);
            let s2 = mount_next(s1, e2);
            let s3 = mount_next(s2, e3);
            let c1 = mount_output(s0, e1)->Some_0;
            let c2 = mount_output(s1, e2)->Some_0;
            let c3 = mount_output(s2, e3)->Some_0;
            let c4 = mount_output(s3, e4)->Some_0;
            &&& mount_accepts(s0, e1) && mount_accepts(s1, e2) && mount_accepts(s2, e3)
            &&& mount_accepts(s3, e4)
            &&& c0 is OpenSource && c1 is Call && c2 is Call && c3 is Call
            &&& c4 == MountCommandView::Finish(
                Ok(HandleView { mount_path, object_path, iso_path }),
            )
            &&& {
                let (u0, d0) = unmount_start(object_path);
                let f1 = UnmountEventView::UnmountReturned(None);
                let f2 = UnmountEventView::DeleteReturned(None);
                let u1 = unmount_next(u0, f1);
                let d1 = unmount_output(u0, f1)->Some_0;
                let d2 = unmount_output(u1, f2)->Some_0;
                let after_mount = service_after(
                    service_after(
                        service_after(svc, c1->Call_0, object_path),
                        c2->Call_0,
                        object_path,
                    ),
                    c3->Call_0,
                    object_path,
                );
                let after_unmount = service_after(
                    service_after(after_mount, d0->Call_0, object_path),
                    d1->Call_0,
                    object_path,
                );
                &&& after_mount.loops.contains(object_path)
                &&& after_mount.mounts.contains(object_path)
                &&& unmount_accepts(u0, f1) && unmount_accepts(u1, f2)
                &&& d0 is Call && d1 is Call
                &&& d2 == UnmountCommandView::Finish(Ok(()))
                &&& after_unmount == svc
            }
        }),
{
    let after_mount = ServiceView {
        loops: svc.loops.insert(object_path),
        mounts: svc.mounts.insert(object_path),
    };
    let after_unmount = ServiceView {
        loops: after_mount.loops.remove(object_path),
        mounts: after_mount.mounts.remove(object_path),
    };
    assert(after_unmount.loops =~= svc.loops);
    assert(after_unmount.mounts =~= svc.mounts);
}

/// A mount of a missing image file ends at once with `SourceNotFound` for that path, and no
/// command of the transaction is a remote call.
pub proof fn lemma_missing_source_makes_no_call(iso_path: Seq<char>)
    ensures
        ({
            let (s0, c0) = mount_start(iso_path);
            let e = MountEventView::SourceMissing;
            &&& c0 == (MountCommandView::OpenSource { path: iso_path })
            &&& mount_accepts(s0, e)
            &&& mount_output(s0, e) == Some(
                MountCommandView::Finish(Err(ErrorView::SourceNotFound { path: iso_path })),
            )
            &&& mount_next(s0, e) == MountStage::Finished
            &&& forall|e2: MountEventView| !#[trigger] mount_accepts(mount_next(s0, e), e2)
        }),
{
}

/// When the mount call succeeds but no mount point is read back, the mount fails with
/// `VerificationFailure` naming the loop object that the loop setup created.
pub proof fn lemma_empty_mount_points_fail_verification(
    iso_path: Seq<char>,
    object_path: Seq<char>,
    mount_path: Seq<char>,
)
    ensures
        ({
            let s0 = mount_start(iso_path).0;
            let s1 = mount_next(s0, MountEventView::SourceOpened);
            let s2 = mount_next(s1, MountEventView::LoopSetupReturned(Ok(object_path)));
            let s3 = mount_next(s2, MountEventView::MountReturned(Ok(mount_path)));
            let e4 = MountEventView::MountPointsRead(Ok(0));
            &&& mount_accepts(s3, e4)
            &&& mount_output(s3, e4) == Some(
                MountCommandView::Finish(Err(ErrorView::VerificationFailure { object_path })),
            )
            &&& mount_outcome(iso_path, object_path, mount_path, 0) is None
        }),
{
}

/// Teardown always deletes: whatever the unmount and the delete return, the transaction
/// issues exactly one `Delete`, on the handle's loop object, right after the `Unmount`, and
/// its result reports each failure.
pub proof fn lemma_unmount_always_deletes(
    object_path: Seq<char>,
    unmount: Option<FailureView>,
    delete: Option<FailureView>,
)
    ensures
        ({
            let (u0, d0) = unmount_start(object_path);
            let f1 = UnmountEventView::UnmountReturned(unmount);
            let f2 = UnmountEventView::DeleteReturned(delete);
            let u1 = unmount_next(u0, f1);
            let u2 = unmount_next(u1, f2);
            let d1 = unmount_output(u0, f1)->Some_0;
            let d2 = unmount_output(u1, f2)->Some_0;
            &&& d0 == UnmountCommandView::Call(CallView::Unmount { object_path })
            &&& unmount_accepts(u0, f1)
            &&& d1 == UnmountCommandView::Call(CallView::Delete { object_path })
            &&& unmount_accepts(u1, f2)
            &&& d2 is Finish
            &&& u2 == UnmountStage::Finished
            &&& forall|e: UnmountEventView| !unmount_accepts(u2, e)
            &&& (d2 == UnmountCommandView::Finish(Ok(()))) <==> (unmount is None && delete is None)
            &&& (unmount is Some || delete is Some) ==> d2 == UnmountCommandView::Finish(
                Err(ErrorView::TeardownFailure { unmount, delete }),
            )
        }),
{
}

/// Two mounts are independent: each handle carries the loop object path and the mount path
/// that its own calls returned, so distinct replies give distinct handles.
pub proof fn lemma_mounts_are_independent(
    iso_a: Seq<char>,
    object_a: Seq<char>,
    mount_a: Seq<char>,
    iso_b: Seq<char>,
    object_b: Seq<char>,
    mount_b: Seq<char>,
)
    requires
        object_a != object_b,
        mount_a != mount_b,
    ensures
        mount_outcome(iso_a, object_a, mount_a, 1) == Some(
            HandleView { mount_path: mount_a, object_path: object_a, iso_path: iso_a },
        ),
        mount_outcome(iso_b, object_b, mount_b, 1) == Some(
            HandleView { mount_path: mount_b, object_path: object_b, iso_path: iso_b },
        ),
        mount_outcome(iso_a, object_a, mount_a, 1)->Some_0.object_path != mount_outcome(
            iso_b,
            object_b,
            mount_b,
            1,
        )->Some_0.object_path,
        mount_outcome(iso_a, object_a, mount_a, 1)->Some_0.mount_path != mount_outcome(
            iso_b,
            object_b,
            mount_b,
            1,
        )->Some_0.mount_path,
{
}

} // verus!
