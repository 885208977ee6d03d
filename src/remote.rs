//! Addresses of the remote objects of the UDisks2 service and the calls made on them.
use vstd::prelude::*;

verus! {

/// Well-known bus name of the device-management service.
pub const UDISKS2_SERVICE: &'static str = "org.freedesktop.UDisks2";

/// Object path of the service's singleton manager.
pub const UDISKS2_MANAGER_PATH: &'static str = "/org/freedesktop/UDisks2/Manager";

/// Interface of the manager object.
pub const UDISKS2_MANAGER_INTERFACE: &'static str = "org.freedesktop.UDisks2.Manager";

/// Interface of a per-device filesystem object.
pub const UDISKS2_FILESYSTEM_INTERFACE: &'static str = "org.freedesktop.UDisks2.Filesystem";

/// Interface of a per-device loop object.
pub const UDISKS2_LOOP_INTERFACE: &'static str = "org.freedesktop.UDisks2.Loop";

/// One addressable object on the bus: service name, object path and interface.
pub struct RemoteObject {
    pub service: String,
    pub path: String,
    pub interface: String,
}

/// `o` is the object at `path` with interface `interface` of the UDisks2 service.
pub open spec fn addresses(o: &RemoteObject, path: Seq<char>, interface: Seq<char>) -> bool {
    &&& o.service@ == UDISKS2_SERVICE@
    &&& o.path@ == path
    &&& o.interface@ == interface
}

impl View for RemoteObject {
    /// Service name, object path and interface.
    type V = (Seq<char>, Seq<char>, Seq<char>);

    open spec fn view(&self) -> (Seq<char>, Seq<char>, Seq<char>) {
        (self.service@, self.path@, self.interface@)
    }
}

impl RemoteObject {
    /// The object at `path` with interface `interface` of the UDisks2 service.
    pub fn udisks(path: &str, interface: &str) -> (r: RemoteObject)
        ensures
            addresses(&r, path@, interface@),
    {
        RemoteObject {
            service: UDISKS2_SERVICE.to_owned(),
            path: path.to_owned(),
            interface: interface.to_owned(),
        }
    }

    /// A second reference to the same object.
    pub fn duplicate(&self) -> (r: RemoteObject)
        ensures
            r.service@ == self.service@,
            r.path@ == self.path@,
            r.interface@ == self.interface@,
    {
        RemoteObject {
            service: self.service.clone(),
            path: self.path.clone(),
            interface: self.interface.clone(),
        }
    }
}

/// How a remote call failed, as reported by the bus client.
#[derive(Debug)]
pub enum CallFailure {
    /// The bus was unreachable, the caller lacked permission, or the service was absent.
    Transport { message: String },
    /// The service rejected the call; the text is the service's own.
    Rejected { message: String },
}

/// Mathematical value of a [`CallFailure`].
pub enum FailureView {
    Transport { message: Seq<char> },
    Rejected { message: Seq<char> },
}

impl View for CallFailure {
    type V = FailureView;

    open spec fn view(&self) -> FailureView {
        match self {
            CallFailure::Transport { message } => FailureView::Transport { message: message@ },
            CallFailure::Rejected { message } => FailureView::Rejected { message: message@ },
        }
    }
}

/// A request against one remote object. Every options map sent is empty.
pub enum RemoteCall {
    /// `LoopSetup(fd, {})` on the manager: creates a loop device backed by the opened image.
    LoopSetup { manager: RemoteObject },
    /// `Mount({})` on a filesystem object: returns the mount path.
    Mount { filesystem: RemoteObject },
    /// Read of the `MountPoints` property of a filesystem object.
    ReadMountPoints { filesystem: RemoteObject },
    /// `Unmount({})` on a filesystem object.
    Unmount { filesystem: RemoteObject },
    /// `Delete({})` on a loop object: detaches the loop device.
    Delete { loop_device: RemoteObject },
}

/// Which call a [`RemoteCall`] is, and on which object path.
pub enum CallView {
    LoopSetup,
    Mount { object_path: Seq<char> },
    ReadMountPoints { object_path: Seq<char> },
    Unmount { object_path: Seq<char> },
    Delete { object_path: Seq<char> },
}

impl View for RemoteCall {
    type V = CallView;

    open spec fn view(&self) -> CallView {
        match self {
            RemoteCall::LoopSetup { .. } => CallView::LoopSetup,
            RemoteCall::Mount { filesystem } => CallView::Mount { object_path: filesystem.path@ },
            RemoteCall::ReadMountPoints { filesystem } => CallView::ReadMountPoints {
                object_path: filesystem.path@,
            },
            RemoteCall::Unmount { filesystem } => CallView::Unmount {
                object_path: filesystem.path@,
            },
            RemoteCall::Delete { loop_device } => CallView::Delete {
                object_path: loop_device.path@,
            },
        }
    }
}

impl RemoteCall {
    /// The target of the call has the service name and the interface that the call needs.
    pub open spec fn well_addressed(&self) -> bool {
        match self {
            RemoteCall::LoopSetup { manager } => addresses(
                manager,
                UDISKS2_MANAGER_PATH@,
                UDISKS2_MANAGER_INTERFACE@,
            ),
            RemoteCall::Mount { filesystem } => addresses(
                filesystem,
                filesystem.path@,
                UDISKS2_FILESYSTEM_INTERFACE@,
            ),
            RemoteCall::ReadMountPoints { filesystem } => addresses(
                filesystem,
                filesystem.path@,
                UDISKS2_FILESYSTEM_INTERFACE@,
            ),
            RemoteCall::Unmount { filesystem } => addresses(
                filesystem,
                filesystem.path@,
                UDISKS2_FILESYSTEM_INTERFACE@,
            ),
            RemoteCall::Delete { loop_device } => addresses(
                loop_device,
                loop_device.path@,
                UDISKS2_LOOP_INTERFACE@,
            ),
        }
    }

    /// The object the call is made on.
    pub fn target(&self) -> (r: &RemoteObject)
        ensures
            match self {
                RemoteCall::LoopSetup { manager } => r == manager,
                RemoteCall::Mount { filesystem } => r == filesystem,
                RemoteCall::ReadMountPoints { filesystem } => r == filesystem,
                RemoteCall::Unmount { filesystem } => r == filesystem,
                RemoteCall::Delete { loop_device } => r == loop_device,
            },
    {
        match self {
            RemoteCall::LoopSetup { manager } => manager,
            RemoteCall::Mount { filesystem } => filesystem,
            RemoteCall::ReadMountPoints { filesystem } => filesystem,
            RemoteCall::Unmount { filesystem } => filesystem,
            RemoteCall::Delete { loop_device } => loop_device,
        }
    }

    /// The member name on the bus: a method name, or the property name for a property read.
    pub fn member(&self) -> (r: &'static str)
        ensures
            match self {
                RemoteCall::LoopSetup { .. } => r@ == "LoopSetup"@,
                RemoteCall::Mount { .. } => r@ == "Mount"@,
                RemoteCall::ReadMountPoints { .. } => r@ == "MountPoints"@,
                RemoteCall::Unmount { .. } => r@ == "Unmount"@,
                RemoteCall::Delete { .. } => r@ == "Delete"@,
            },
    {
        match self {
            RemoteCall::LoopSetup { .. } => "LoopSetup",
            RemoteCall::Mount { .. } => "Mount",
            RemoteCall::ReadMountPoints { .. } => "MountPoints",
            RemoteCall::Unmount { .. } => "Unmount",
            RemoteCall::Delete { .. } => "Delete",
        }
    }
}

} // verus!
