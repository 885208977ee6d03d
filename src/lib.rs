//! Mounting of disk image files through the UDisks2 device-management service.
pub mod config;
pub mod coordinator;
pub mod lifecycle;
pub mod remote;
pub mod sysinfo;
pub mod udisks2;

pub use config::{FontFamilies, FontLoader};
pub use coordinator::IsoMounter;
pub use udisks2::{MountedIso, UDisks2Filesystem, UDisks2Manager};
