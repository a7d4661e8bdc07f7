use crate::utils::timestamp::Timestamp;
use vstd::prelude::*;

verus! {

/// A device that syncs with the service.
#[derive(Debug, PartialEq, Eq)]
pub struct Device<'t> {
    pub uid: &'t str,
    pub device_type: DeviceType,
    /// The device's name, or why its name is invalid, where that is known.
    pub name: Result<&'t str, Option<&'static str>>,
    pub root_folder_u_id: &'t str,
    pub creation_time: Timestamp,
    pub last_sync_date: Timestamp,
}

/// The operating system family of a registered device.
#[derive(Clone, Copy, Debug, PartialEq, Eq, Structural)]
pub enum DeviceType {
    Windows,
    MacOS,
    Linux,
}

impl DeviceType {
    /// The display name of each family.
    pub open spec fn name(self) -> Seq<char> {
        match self {
            DeviceType::Windows => "Windows"@,
            DeviceType::MacOS => "MacOS"@,
            DeviceType::Linux => "Linux"@,
        }
    }

    /// The family's display name.
    pub fn to_str(&self) -> (r: &'static str)
        ensures
            r@ == self.name(),
    {
        match self {
            DeviceType::Windows => "Windows",
            DeviceType::MacOS => "MacOS",
            DeviceType::Linux => "Linux",
        }
    }
}

} // verus!
