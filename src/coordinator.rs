//! The mount coordinator: one transaction per mount, one per unmount.
//!
//! A transaction hands out one command at a time and takes back the outcome of that
//! command as an event. Its behaviour is the pair of spec functions `mount_next` /
//! `mount_output` (and `unmount_next` / `unmount_output`): the stage it moves to and
//! the command it issues, given its stage and the event.
use vstd::prelude::*;
use crate::remote::{CallFailure, CallView, FailureView, RemoteCall};
use crate::udisks2::{
    manager_address, step_error, ErrorView, HandleView, MountError, MountedIso, Step, UDisks2Filesystem,
    UDisks2Manager,
};

verus! {

/// Where a mount transaction stands.
pub enum MountStage {
    /// Nothing done yet: the image file is to be checked and opened.
    Idle { iso_path: Seq<char> },
    /// The image is open; the loop device is being created.
    Opened { iso_path: Seq<char> },
    /// A loop device exists at `object_path`; its filesystem is being mounted.
    LoopCreated { iso_path: Seq<char>, object_path: Seq<char> },
    /// The filesystem is mounted at `mount_path`; the mount points are being read back.
    Mounted { iso_path: Seq<char>, object_path: Seq<char>, mount_path: Seq<char> },
    /// The result has been handed out.
    Finished,
}

/// The outcome of the command a mount transaction issued last.
pub enum MountEvent {
    /// The image file does not exist.
    SourceMissing,
    /// The image file exists but could not be opened.
    SourceUnreadable { message: String },
    /// The image file is open; its descriptor is ready for the loop setup call.
    SourceOpened,
    /// Reply to `LoopSetup`: the new loop object's path.
    LoopSetupReturned(Result<String, CallFailure>),
    /// Reply to `Mount`: the mount path.
    MountReturned(Result<String, CallFailure>),
    /// Value of the `MountPoints` property.
    MountPointsRead(Result<Vec<Vec<u8>>, CallFailure>),
}

/// Mathematical value of a [`MountEvent`]; of the mount points only their number counts.
pub enum MountEventView {
    SourceMissing,
    SourceUnreadable { message: Seq<char> },
    SourceOpened,
    LoopSetupReturned(Result<Seq<char>, FailureView>),
    MountReturned(Result<Seq<char>, FailureView>),
    MountPointsRead(Result<nat, FailureView>),
}

pub open spec fn reply_view(r: Result<String, CallFailure>) -> Result<Seq<char>, FailureView> {
    match r {
        Ok(s) => Ok(s@),
        Err(f) => Err(f@),
    }
}

impl View for MountEvent {
    type V = MountEventView;

    open spec fn view(&self) -> MountEventView {
        match self {
            MountEvent::SourceMissing => MountEventView::SourceMissing,
            MountEvent::SourceUnreadable { message } => MountEventView::SourceUnreadable {
                message: message@,
            },
            MountEvent::SourceOpened => MountEventView::SourceOpened,
            MountEvent::LoopSetupReturned(r) => MountEventView::LoopSetupReturned(reply_view(*r)),
            MountEvent::MountReturned(r) => MountEventView::MountReturned(reply_view(*r)),
            MountEvent::MountPointsRead(r) => MountEventView::MountPointsRead(
                match r {
                    Ok(points) => Ok(points@.len()),
                    Err(f) => Err(f@),
                },
            ),
        }
    }
}

/// What a mount transaction asks of its driver.
pub enum MountCommand {
    /// Check that the image file exists and open it.
    OpenSource { path: String },
    /// Make this remote call (`LoopSetup` takes the descriptor of the opened image).
    Call(RemoteCall),
    /// The transaction is over.
    Finish(Result<MountedIso, MountError>),
}

/// Mathematical value of a [`MountCommand`].
pub enum MountCommandView {
    OpenSource { path: Seq<char> },
    Call(CallView),
    Finish(Result<HandleView, ErrorView>),
}

impl View for MountCommand {
    type V = MountCommandView;

    open spec fn view(&self) -> MountCommandView {
        match self {
            MountCommand::OpenSource { path } => MountCommandView::OpenSource { path: path@ },
            MountCommand::Call(c) => MountCommandView::Call(c@),
            MountCommand::Finish(Ok(h)) => MountCommandView::Finish(Ok(h@)),
            MountCommand::Finish(Err(e)) => MountCommandView::Finish(Err(e@)),
        }
    }
}

impl MountCommand {
    /// A remote call it carries is addressed to the right service and interface.
    pub open spec fn well_addressed(&self) -> bool {
        match self {
            MountCommand::Call(c) => c.well_addressed(),
            _ => true,
        }
    }
}

/// The event that a mount transaction at stage `s` waits for is of the kind of `e`.
pub open spec fn mount_accepts(s: MountStage, e: MountEventView) -> bool {
    match s {
        MountStage::Idle { .. } => e is SourceMissing || e is SourceUnreadable || e is SourceOpened,
        MountStage::Opened { .. } => e is LoopSetupReturned,
        MountStage::LoopCreated { .. } => e is MountReturned,
        MountStage::Mounted { .. } => e is MountPointsRead,
        MountStage::Finished => false,
    }
}

/// The stage a mount transaction moves to from `s` on the event `e`: every accepted event
/// that does not lead on ends the transaction (only accepted events are ever applied).
pub open spec fn mount_next(s: MountStage, e: MountEventView) -> MountStage {
    match (s, e) {
        (MountStage::Idle { iso_path }, MountEventView::SourceOpened) => MountStage::Opened {
            iso_path,
        },
        (MountStage::Opened { iso_path }, MountEventView::LoopSetupReturned(Ok(object_path))) => {
            MountStage::LoopCreated { iso_path, object_path }
        },
        (
            MountStage::LoopCreated { iso_path, object_path },
            MountEventView::MountReturned(Ok(mount_path)),
        ) => MountStage::Mounted { iso_path, object_path, mount_path },
        _ => MountStage::Finished,
    }
}

/// The command a mount transaction issues from `s` on the event `e`; `None` when the
/// transaction does not accept `e` at `s`.
pub open spec fn mount_output(s: MountStage, e: MountEventView) -> Option<MountCommandView> {
    match (s, e) {
        (MountStage::Idle { iso_path }, MountEventView::SourceMissing) => Some(
            MountCommandView::Finish(Err(ErrorView::SourceNotFound { path: iso_path })),
        ),
        (MountStage::Idle { iso_path }, MountEventView::SourceUnreadable { message }) => Some(
            MountCommandView::Finish(Err(ErrorView::SourceUnreadable { path: iso_path, message })),
        ),
        (MountStage::Idle { .. }, MountEventView::SourceOpened) => Some(
            MountCommandView::Call(CallView::LoopSetup),
        ),
        (MountStage::Opened { .. }, MountEventView::LoopSetupReturned(Ok(object_path))) => Some(
            MountCommandView::Call(CallView::Mount { object_path }),
        ),
        (MountStage::Opened { .. }, MountEventView::LoopSetupReturned(Err(f))) => Some(
            MountCommandView::Finish(Err(step_error(Step::LoopSetup, f))),
        ),
        (MountStage::LoopCreated { object_path, .. }, MountEventView::MountReturned(Ok(_))) => Some(
            MountCommandView::Call(CallView::ReadMountPoints { object_path }),
        ),
        (MountStage::LoopCreated { .. }, MountEventView::MountReturned(Err(f))) => Some(
            MountCommandView::Finish(Err(step_error(Step::Mount, f))),
        ),
        (
            MountStage::Mounted { iso_path, object_path, mount_path },
            MountEventView::MountPointsRead(Ok(n)),
        ) => Some(
            if n > 0 {
                MountCommandView::Finish(Ok(HandleView { mount_path, object_path, iso_path }))
            } else {
                MountCommandView::Finish(Err(ErrorView::VerificationFailure { object_path }))
            },
        ),
        (MountStage::Mounted { .. }, MountEventView::MountPointsRead(Err(f))) => Some(
            MountCommandView::Finish(Err(step_error(Step::MountPoints, f))),
        ),
        _ => None,
    }
}

/// A new mount transaction for `iso_path` and its first command.
pub open spec fn mount_start(iso_path: Seq<char>) -> (MountStage, MountCommandView) {
    (MountStage::Idle { iso_path }, MountCommandView::OpenSource { path: iso_path })
}

enum MountState {
    Idle { iso_path: String },
    Opened { iso_path: String },
    LoopCreated { iso_path: String, filesystem: UDisks2Filesystem },
    Mounted { iso_path: String, filesystem: UDisks2Filesystem, mount_path: String },
    Finished,
}

/// One mount of one image file, from the file check to the mounted handle.
pub struct MountTransaction {
    manager: UDisks2Manager,
    state: MountState,
}

impl MountTransaction {
    /// Address of the manager object that the loop setup call goes to.
    pub closed spec fn manager(&self) -> (Seq<char>, Seq<char>, Seq<char>) {
        self.manager@
    }

    /// Where the transaction stands.
    pub closed spec fn stage(&self) -> MountStage {
        match self.state {
            MountState::Idle { iso_path } => MountStage::Idle { iso_path: iso_path@ },
            MountState::Opened { iso_path } => MountStage::Opened { iso_path: iso_path@ },
            MountState::LoopCreated { iso_path, filesystem } => MountStage::LoopCreated {
                iso_path: iso_path@,
                object_path: filesystem@,
            },
            MountState::Mounted { iso_path, filesystem, mount_path } => MountStage::Mounted {
                iso_path: iso_path@,
                object_path: filesystem@,
                mount_path: mount_path@,
            },
            MountState::Finished => MountStage::Finished,
        }
    }

    /// Whether the transaction waits for an event of the kind of `event`.
    pub fn accepts(&self, event: &MountEvent) -> (r: bool)
        ensures
            r == mount_accepts(self.stage(), event@),
    {
        match (&self.state, event) {
            (MountState::Idle { .. }, MountEvent::SourceMissing) => true,
            (MountState::Idle { .. }, MountEvent::SourceUnreadable { .. }) => true,
            (MountState::Idle { .. }, MountEvent::SourceOpened) => true,
            (MountState::Opened { .. }, MountEvent::LoopSetupReturned(_)) => true,
            (MountState::LoopCreated { .. }, MountEvent::MountReturned(_)) => true,
            (MountState::Mounted { .. }, MountEvent::MountPointsRead(_)) => true,
            _ => false,
        }
    }

    /// Takes the outcome of the last command and returns the next command.
    pub fn advance(&mut self, event: MountEvent) -> (cmd: MountCommand)
        requires
            mount_accepts(old(self).stage(), event@),
        ensures
            final(self).stage() == mount_next(old(self).stage(), event@),
            mount_output(old(self).stage(), event@) == Some(cmd@),
            cmd.well_addressed(),
            final(self).manager() == old(self).manager(),
            match cmd {
                MountCommand::Call(RemoteCall::LoopSetup { manager }) => manager@ == old(
                    self,
                ).manager(),
                _ => true,
            },
    {
        let mut state = MountState::Finished;
        std::mem::swap(&mut self.state, &mut state);
        match state {
            MountState::Idle { iso_path } => match event {
                MountEvent::SourceMissing => MountCommand::Finish(
                    Err(MountError::SourceNotFound { path: iso_path }),
                ),
                MountEvent::SourceUnreadable { message } => MountCommand::Finish(
                    Err(MountError::SourceUnreadable { path: iso_path, message }),
                ),
                _ => {
                    self.state = MountState::Opened { iso_path };
                    MountCommand::Call(self.manager.setup_loop_device())
                },
            },
            MountState::Opened { iso_path } => match event {
                MountEvent::LoopSetupReturned(Ok(object_path)) => {
                    let filesystem = UDisks2Filesystem::new(object_path);
                    let call = filesystem.mount();
                    self.state = MountState::LoopCreated { iso_path, filesystem };
                    MountCommand::Call(call)
                },
                MountEvent::LoopSetupReturned(Err(f)) => MountCommand::Finish(
                    Err(MountError::from_call(Step::LoopSetup, f)),
                ),
                _ => unreached(),
            },
            MountState::LoopCreated { iso_path, filesystem } => match event {
                MountEvent::MountReturned(Ok(mount_path)) => {
                    let call = filesystem.read_mount_points();
                    self.state = MountState::Mounted { iso_path, filesystem, mount_path };
                    MountCommand::Call(call)
                },
                MountEvent::MountReturned(Err(f)) => MountCommand::Finish(
                    Err(MountError::from_call(Step::Mount, f)),
                ),
                _ => unreached(),
            },
            MountState::Mounted { iso_path, filesystem, mount_path } => match event {
                MountEvent::MountPointsRead(Ok(points)) => {
                    match filesystem.verify_mount_point(&points) {
                        Ok(()) => MountCommand::Finish(
                            Ok(MountedIso { mount_path, filesystem, iso_path }),
                        ),
                        Err(e) => MountCommand::Finish(Err(e)),
                    }
                },
                MountEvent::MountPointsRead(Err(f)) => MountCommand::Finish(
                    Err(MountError::from_call(Step::MountPoints, f)),
                ),
                _ => unreached(),
            },
            MountState::Finished => unreached(),
        }
    }
}

/// Where an unmount transaction stands.
pub enum UnmountStage {
    /// `Unmount` has been issued for the loop object at `object_path`.
    Unmounting { object_path: Seq<char> },
    /// `Delete` has been issued; `unmount` is how the unmount failed, if it did.
    Deleting { object_path: Seq<char>, unmount: Option<FailureView> },
    /// The result has been handed out.
    Finished,
}

/// The outcome of the command an unmount transaction issued last.
pub enum UnmountEvent {
    UnmountReturned(Result<(), CallFailure>),
    DeleteReturned(Result<(), CallFailure>),
}

/// Mathematical value of an [`UnmountEvent`]: the failure, if the call failed.
pub enum UnmountEventView {
    UnmountReturned(Option<FailureView>),
    DeleteReturned(Option<FailureView>),
}

pub open spec fn outcome_view(r: Result<(), CallFailure>) -> Option<FailureView> {
    match r {
        Ok(()) => None,
        Err(f) => Some(f@),
    }
}

impl View for UnmountEvent {
    type V = UnmountEventView;

    open spec fn view(&self) -> UnmountEventView {
        match self {
            UnmountEvent::UnmountReturned(r) => UnmountEventView::UnmountReturned(outcome_view(*r)),
            UnmountEvent::DeleteReturned(r) => UnmountEventView::DeleteReturned(outcome_view(*r)),
        }
    }
}

/// What an unmount transaction asks of its driver.
pub enum UnmountCommand {
    /// Make this remote call.
    Call(RemoteCall),
    /// The transaction is over.
    Finish(Result<(), MountError>),
}

/// Mathematical value of an [`UnmountCommand`].
pub enum UnmountCommandView {
    Call(CallView),
    Finish(Result<(), ErrorView>),
}

impl View for UnmountCommand {
    type V = UnmountCommandView;

    open spec fn view(&self) -> UnmountCommandView {
        match self {
            UnmountCommand::Call(c) => UnmountCommandView::Call(c@),
            UnmountCommand::Finish(Ok(())) => UnmountCommandView::Finish(Ok(())),
            UnmountCommand::Finish(Err(e)) => UnmountCommandView::Finish(Err(e@)),
        }
    }
}

impl UnmountCommand {
    /// A remote call it carries is addressed to the right service and interface.
    pub open spec fn well_addressed(&self) -> bool {
        match self {
            UnmountCommand::Call(c) => c.well_addressed(),
            _ => true,
        }
    }
}

/// The event that an unmount transaction at stage `s` waits for is of the kind of `e`.
pub open spec fn unmount_accepts(s: UnmountStage, e: UnmountEventView) -> bool {
    match s {
        UnmountStage::Unmounting { .. } => e is UnmountReturned,
        UnmountStage::Deleting { .. } => e is DeleteReturned,
        UnmountStage::Finished => false,
    }
}

/// The stage an unmount transaction moves to from `s` on the event `e`: the reply to
/// `Delete` ends the transaction (only accepted events are ever applied).
pub open spec fn unmount_next(s: UnmountStage, e: UnmountEventView) -> UnmountStage {
    match (s, e) {
        (UnmountStage::Unmounting { object_path }, UnmountEventView::UnmountReturned(unmount)) => {
            UnmountStage::Deleting { object_path, unmount }
        },
        _ => UnmountStage::Finished,
    }
}

/// The command an unmount transaction issues from `s` on the event `e`: `Delete` follows
/// `Unmount` whatever its outcome, and the result reports every failure. `None` when the
/// transaction does not accept `e` at `s`.
pub open spec fn unmount_output(s: UnmountStage, e: UnmountEventView) -> Option<UnmountCommandView> {
    match (s, e) {
        (UnmountStage::Unmounting { object_path }, UnmountEventView::UnmountReturned(_)) => Some(
            UnmountCommandView::Call(CallView::Delete { object_path }),
        ),
        (UnmountStage::Deleting { unmount, .. }, UnmountEventView::DeleteReturned(delete)) => Some(
            if unmount is None && delete is None {
                UnmountCommandView::Finish(Ok(()))
            } else {
                UnmountCommandView::Finish(Err(ErrorView::TeardownFailure { unmount, delete }))
            },
        ),
        _ => None,
    }
}

/// A new unmount transaction for the loop object at `object_path` and its first command.
pub open spec fn unmount_start(object_path: Seq<char>) -> (UnmountStage, UnmountCommandView) {
    (
        UnmountStage::Unmounting { object_path },
        UnmountCommandView::Call(CallView::Unmount { object_path }),
    )
}

enum UnmountState {
    Unmounting { filesystem: UDisks2Filesystem },
    Deleting { object_path: String, unmount: Option<CallFailure> },
    Finished,
}

/// One teardown of one mounted image: unmount, then delete the loop device.
pub struct UnmountTransaction {
    state: UnmountState,
}

impl UnmountTransaction {
    /// Where the transaction stands.
    pub closed spec fn stage(&self) -> UnmountStage {
        match self.state {
            UnmountState::Unmounting { filesystem } => UnmountStage::Unmounting {
                object_path: filesystem@,
            },
            UnmountState::Deleting { object_path, unmount } => UnmountStage::Deleting {
                object_path: object_path@,
                unmount: crate::udisks2::failure_view(unmount),
            },
            UnmountState::Finished => UnmountStage::Finished,
        }
    }

    /// Whether the transaction waits for an event of the kind of `event`.
    pub fn accepts(&self, event: &UnmountEvent) -> (r: bool)
        ensures
            r == unmount_accepts(self.stage(), event@),
    {
        match (&self.state, event) {
            (UnmountState::Unmounting { .. }, UnmountEvent::UnmountReturned(_)) => true,
            (UnmountState::Deleting { .. }, UnmountEvent::DeleteReturned(_)) => true,
            _ => false,
        }
    }

    /// Takes the outcome of the last command and returns the next command.
    pub fn advance(&mut self, event: UnmountEvent) -> (cmd: UnmountCommand)
        requires
            unmount_accepts(old(self).stage(), event@),
        ensures
            final(self).stage() == unmount_next(old(self).stage(), event@),
            unmount_output(old(self).stage(), event@) == Some(cmd@),
            cmd.well_addressed(),
    {
        let mut state = UnmountState::Finished;
        std::mem::swap(&mut self.state, &mut state);
        match state {
            UnmountState::Unmounting { filesystem } => match event {
                UnmountEvent::UnmountReturned(r) => {
                    let unmount = match r {
                        Ok(()) => None,
                        Err(f) => Some(f),
                    };
                    let object_path = filesystem.object_path().clone();
                    let call = filesystem.delete();
                    self.state = UnmountState::Deleting { object_path, unmount };
                    UnmountCommand::Call(call)
                },
                _ => unreached(),
            },
            UnmountState::Deleting { unmount, .. } => match event {
                UnmountEvent::DeleteReturned(r) => {
                    let delete = match r {
                        Ok(()) => None,
                        Err(f) => Some(f),
                    };
                    if unmount.is_none() && delete.is_none() {
                        UnmountCommand::Finish(Ok(()))
                    } else {
                        UnmountCommand::Finish(Err(MountError::TeardownFailure { unmount, delete }))
                    }
                },
                _ => unreached(),
            },
            UnmountState::Finished => unreached(),
        }
    }
}

/// Entry point of the coordinator: starts mount and unmount transactions.
pub struct IsoMounter {
    manager: UDisks2Manager,
}

impl View for IsoMounter {
    /// Address of the manager object that its mounts set up loop devices with.
    type V = (Seq<char>, Seq<char>, Seq<char>);

    closed spec fn view(&self) -> (Seq<char>, Seq<char>, Seq<char>) {
        self.manager@
    }
}

impl IsoMounter {
    /// A coordinator that talks to the well-known manager object.
    pub fn new() -> (r: IsoMounter)
        ensures
            r@ == manager_address(),
    {
        IsoMounter { manager: UDisks2Manager::new() }
    }

    /// Starts the mount of the image at `iso_path`; the first command checks and opens the
    /// file, so that nothing remote happens for a missing file.
    pub fn mount_iso(&self, iso_path: String) -> (r: (MountTransaction, MountCommand))
        ensures
            (r.0.stage(), r.1@) == mount_start(iso_path@),
            r.0.manager() == self@,
    {
        let path = iso_path.clone();
        (
            MountTransaction { manager: self.manager.duplicate(), state: MountState::Idle { iso_path } },
            MountCommand::OpenSource { path },
        )
    }

    /// Starts the teardown of a mounted image; the first command unmounts it.
    pub fn unmount_iso(&self, mounted_iso: MountedIso) -> (r: (UnmountTransaction, UnmountCommand))
        ensures
            (r.0.stage(), r.1@) == unmount_start(mounted_iso@.object_path),
            r.1.well_addressed(),
    {
        let filesystem = mounted_iso.filesystem;
        let call = filesystem.unmount();
        (UnmountTransaction { state: UnmountState::Unmounting { filesystem } }, UnmountCommand::Call(call))
    }
}

} // verus!
