//! Clients of the UDisks2 manager, filesystem and loop objects, and the mount coordinator.
//!
//! Nothing here touches the bus. A client describes each call as a [`RemoteCall`]; the
//! coordinator is a pair of state machines that say which call comes next, given the
//! outcome of the previous one. Whoever holds the bus connection performs the calls and
//! feeds the outcomes back, one at a time, in order.
use vstd::prelude::*;
use crate::remote::{
    UDISKS2_SERVICE, addresses, CallFailure, CallView, FailureView, RemoteCall, RemoteObject, UDISKS2_FILESYSTEM_INTERFACE,
    UDISKS2_LOOP_INTERFACE, UDISKS2_MANAGER_INTERFACE, UDISKS2_MANAGER_PATH,
};

verus! {

/// The step of a transaction at which an error came.
#[derive(Clone, Copy, Debug, PartialEq, Eq, Structural)]
pub enum Step {
    OpenSource,
    LoopSetup,
    Mount,
    MountPoints,
    Unmount,
    Delete,
}

/// Why a mount or an unmount did not complete.
#[derive(Debug)]
pub enum MountError {
    /// The image file does not exist; no remote call was made.
    SourceNotFound { path: String },
    /// The image file exists but could not be opened; no remote call was made.
    SourceUnreadable { path: String, message: String },
    /// The bus was unreachable, permission was denied, or the service was absent.
    TransportFailure { step: Step, message: String },
    /// The service rejected the call; the text is the service's own.
    RemoteCallFailure { step: Step, message: String },
    /// The service reported a mount but exposes no mount point for the loop object.
    VerificationFailure { object_path: String },
    /// Unmount, delete, or both failed during teardown.
    TeardownFailure { unmount: Option<CallFailure>, delete: Option<CallFailure> },
}

/// Mathematical value of a [`MountError`].
pub enum ErrorView {
    SourceNotFound { path: Seq<char> },
    SourceUnreadable { path: Seq<char>, message: Seq<char> },
    TransportFailure { step: Step, message: Seq<char> },
    RemoteCallFailure { step: Step, message: Seq<char> },
    VerificationFailure { object_path: Seq<char> },
    TeardownFailure { unmount: Option<FailureView>, delete: Option<FailureView> },
}

pub open spec fn failure_view(f: Option<CallFailure>) -> Option<FailureView> {
    match f {
        Some(f) => Some(f@),
        None => None,
    }
}

impl View for MountError {
    type V = ErrorView;

    open spec fn view(&self) -> ErrorView {
        match self {
            MountError::SourceNotFound { path } => ErrorView::SourceNotFound { path: path@ },
            MountError::SourceUnreadable { path, message } => ErrorView::SourceUnreadable {
                path: path@,
                message: message@,
            },
            MountError::TransportFailure { step, message } => ErrorView::TransportFailure {
                step: *step,
                message: message@,
            },
            MountError::RemoteCallFailure { step, message } => ErrorView::RemoteCallFailure {
                step: *step,
                message: message@,
            },
            MountError::VerificationFailure { object_path } => ErrorView::VerificationFailure {
                object_path: object_path@,
            },
            MountError::TeardownFailure { unmount, delete } => ErrorView::TeardownFailure {
                unmount: failure_view(*unmount),
                delete: failure_view(*delete),
            },
        }
    }
}

/// The error that a failed call at `step` becomes.
pub open spec fn step_error(step: Step, f: FailureView) -> ErrorView {
    match f {
        FailureView::Transport { message } => ErrorView::TransportFailure { step, message },
        FailureView::Rejected { message } => ErrorView::RemoteCallFailure { step, message },
    }
}

impl MountError {
    /// The error that a failed call at `step` becomes.
    pub fn from_call(step: Step, f: CallFailure) -> (r: MountError)
        ensures
            r@ == step_error(step, f@),
    {
        match f {
            CallFailure::Transport { message } => MountError::TransportFailure { step, message },
            CallFailure::Rejected { message } => MountError::RemoteCallFailure { step, message },
        }
    }
}

/// Address of the service's manager object: service name, object path, interface.
pub open spec fn manager_address() -> (Seq<char>, Seq<char>, Seq<char>) {
    (UDISKS2_SERVICE@, UDISKS2_MANAGER_PATH@, UDISKS2_MANAGER_INTERFACE@)
}

/// Client of the service's manager object.
pub struct UDisks2Manager {
    object: RemoteObject,
}

impl View for UDisks2Manager {
    /// Address of the object the client talks to.
    type V = (Seq<char>, Seq<char>, Seq<char>);

    closed spec fn view(&self) -> (Seq<char>, Seq<char>, Seq<char>) {
        self.object@
    }
}

impl UDisks2Manager {
    #[verifier::type_invariant]
    spec fn wf(&self) -> bool {
        addresses(&self.object, UDISKS2_MANAGER_PATH@, UDISKS2_MANAGER_INTERFACE@)
    }

    /// The client of the well-known manager object.
    pub fn new() -> (r: UDisks2Manager)
        ensures
            r@ == manager_address(),
    {
        UDisks2Manager { object: RemoteObject::udisks(UDISKS2_MANAGER_PATH, UDISKS2_MANAGER_INTERFACE) }
    }

    /// A second client of the same object.
    pub fn duplicate(&self) -> (r: UDisks2Manager)
        ensures
            r@ == self@,
    {
        proof {
            use_type_invariant(self);
        }
        UDisks2Manager { object: self.object.duplicate() }
    }

    /// The call that creates a loop device from the opened image; its reply is the
    /// object path that [`UDisks2Filesystem::new`] takes.
    pub fn setup_loop_device(&self) -> (r: RemoteCall)
        ensures
            r@ == CallView::LoopSetup,
            r.well_addressed(),
            match r {
                RemoteCall::LoopSetup { manager } => manager@ == self@,
                _ => false,
            },
    {
        proof {
            use_type_invariant(self);
        }
        RemoteCall::LoopSetup { manager: self.object.duplicate() }
    }
}

/// Client of the filesystem (and loop) interface of one loop device object.
pub struct UDisks2Filesystem {
    object_path: String,
    filesystem: RemoteObject,
}

impl View for UDisks2Filesystem {
    /// The object path of the loop device.
    type V = Seq<char>;

    closed spec fn view(&self) -> Seq<char> {
        self.object_path@
    }
}

impl UDisks2Filesystem {
    #[verifier::type_invariant]
    spec fn wf(&self) -> bool {
        addresses(&self.filesystem, self.object_path@, UDISKS2_FILESYSTEM_INTERFACE@)
    }

    /// The client of the filesystem object at `object_path`.
    pub fn new(object_path: String) -> (r: UDisks2Filesystem)
        ensures
            r@ == object_path@,
    {
        let filesystem = RemoteObject::udisks(object_path.as_str(), UDISKS2_FILESYSTEM_INTERFACE);
        UDisks2Filesystem { object_path, filesystem }
    }

    /// The object path of the loop device.
    pub fn object_path(&self) -> (r: &String)
        ensures
            r@ == self@,
    {
        &self.object_path
    }

    /// The `Mount` call on this filesystem.
    pub fn mount(&self) -> (r: RemoteCall)
        ensures
            r@ == (CallView::Mount { object_path: self@ }),
            r.well_addressed(),
    {
        proof {
            use_type_invariant(self);
        }
        RemoteCall::Mount { filesystem: self.filesystem.duplicate() }
    }

    /// The read of this filesystem's `MountPoints` property.
    pub fn read_mount_points(&self) -> (r: RemoteCall)
        ensures
            r@ == (CallView::ReadMountPoints { object_path: self@ }),
            r.well_addressed(),
    {
        proof {
            use_type_invariant(self);
        }
        RemoteCall::ReadMountPoints { filesystem: self.filesystem.duplicate() }
    }

    /// Checks the `MountPoints` property read back after a mount: at least one entry.
    pub fn verify_mount_point(&self, mount_points: &Vec<Vec<u8>>) -> (r: Result<(), MountError>)
        ensures
            mount_points@.len() > 0 <==> r is Ok,
            r is Err ==> r->Err_0@ == (ErrorView::VerificationFailure { object_path: self@ }),
    {
        if mount_points.len() > 0 {
            Ok(())
        } else {
            Err(MountError::VerificationFailure { object_path: self.object_path.clone() })
        }
    }

    /// The `Unmount` call on this filesystem.
    pub fn unmount(&self) -> (r: RemoteCall)
        ensures
            r@ == (CallView::Unmount { object_path: self@ }),
            r.well_addressed(),
    {
        proof {
            use_type_invariant(self);
        }
        RemoteCall::Unmount { filesystem: self.filesystem.duplicate() }
    }

    /// The `Delete` call on the loop object of the same path; the client is used up.
    pub fn delete(self) -> (r: RemoteCall)
        ensures
            r@ == (CallView::Delete { object_path: self@ }),
            r.well_addressed(),
    {
        RemoteCall::Delete {
            loop_device: RemoteObject::udisks(self.object_path.as_str(), UDISKS2_LOOP_INTERFACE),
        }
    }
}

/// A mounted image: the only handle through which it can be torn down.
pub struct MountedIso {
    pub mount_path: String,
    pub filesystem: UDisks2Filesystem,
    pub iso_path: String,
}

/// Mathematical value of a [`MountedIso`].
pub struct HandleView {
    pub mount_path: Seq<char>,
    pub object_path: Seq<char>,
    pub iso_path: Seq<char>,
}

impl View for MountedIso {
    type V = HandleView;

    open spec fn view(&self) -> HandleView {
        HandleView {
            mount_path: self.mount_path@,
            object_path: self.filesystem@,
            iso_path: self.iso_path@,
        }
    }
}

} // verus!
