use vstd::prelude::*;
use vstd::string::StringExecFns;

use crate::paths::{join, join_path};

verus! {

/// Where a VM's staged file `name` lives: in the VM's own directory under
/// the working base.
pub open spec fn staged_path(working_base: Seq<char>, uuid: Seq<char>, name: Seq<char>) -> Seq<
    char,
> {
    join(join(working_base, uuid), name)
}

pub open spec fn kernel_image_name() -> Seq<char> {
    "some_kernel_image"@
}

pub open spec fn initrd_name() -> Seq<char> {
    "some_initrd"@
}

pub open spec fn root_fs_name() -> Seq<char> {
    "some_root_fs"@
}

pub open spec fn default_boot_args() -> Seq<char> {
    "console=ttyS0 reboot=k panic=1 pci=off"@
}

/// The kernel, its arguments, and the initial ramdisk the VM boots from.
pub struct BootSource {
    pub kernel_image_path: String,
    pub boot_args: String,
    pub initrd_path: String,
}

/// A block device handed to the VM.
pub struct Drive {
    pub drive_id: String,
    pub is_read_only: bool,
    pub is_root_device: bool,
    pub path_on_host: String,
}

/// The VM's processor and memory sizing.
#[derive(Clone, Copy)]
pub struct MachineConfig {
    pub ht_enabled: bool,
    pub mem_size_mib: u16,
    pub vcpu_count: u8,
}

/// A network interface of the VM, backed by a host tap device.
pub struct NetworkInterfaces {
    pub host_dev_name: String,
    pub iface_id: String,
    pub guest_mac: String,
}

/// The hypervisor's configuration document for one VM. The optional
/// sections are left out of the document where they are `None`.
pub struct ConfigFile {
    pub boot_source: BootSource,
    pub drives: Vec<Drive>,
    pub machine_config: MachineConfig,
    pub balloon: Option<bool>,
    pub network_interfaces: Option<Vec<NetworkInterfaces>>,
    pub vsock: Option<bool>,
    pub logger: Option<bool>,
    pub metrics: Option<bool>,
    pub mmds_config: Option<bool>,
}

impl BootSource {
    pub open spec fn is_default_for(&self, working_base: Seq<char>, uuid: Seq<char>) -> bool {
        &&& self.kernel_image_path@ == staged_path(working_base, uuid, kernel_image_name())
        &&& self.boot_args@ == default_boot_args()
        &&& self.initrd_path@ == staged_path(working_base, uuid, initrd_name())
    }

    pub fn build(uuid: &str, working_base: &str) -> (r: BootSource)
        ensures
            r.is_default_for(working_base@, uuid@),
    {
        let dir = join_path(working_base, uuid);
        let kernel_image_path = join_path(dir.as_str(), "some_kernel_image");
        let initrd_path = join_path(dir.as_str(), "some_initrd");
        BootSource {
            kernel_image_path,
            boot_args: String::from_str("console=ttyS0 reboot=k panic=1 pci=off"),
            initrd_path,
        }
    }
}

impl Drive {
    pub open spec fn is_root_fs_for(
        &self,
        is_read_only: bool,
        is_root_device: bool,
        working_base: Seq<char>,
        uuid: Seq<char>,
    ) -> bool {
        &&& self.drive_id@ == "some_drive_id"@
        &&& self.is_read_only == is_read_only
        &&& self.is_root_device == is_root_device
        &&& self.path_on_host@ == staged_path(working_base, uuid, root_fs_name())
    }

    /// The drive backed by the VM's staged root file system.
    pub fn build(is_read_only: bool, is_root_device: bool, uuid: &str, working_base: &str) -> (r:
        Drive)
        ensures
            r.is_root_fs_for(is_read_only, is_root_device, working_base@, uuid@),
    {
        let dir = join_path(working_base, uuid);
        Drive {
            drive_id: String::from_str("some_drive_id"),
            is_read_only,
            is_root_device,
            path_on_host: join_path(dir.as_str(), "some_root_fs"),
        }
    }
}

impl MachineConfig {
    pub fn build() -> (r: MachineConfig)
        ensures
            r.ht_enabled,
            r.mem_size_mib == 1024,
            r.vcpu_count == 2,
    {
        MachineConfig { ht_enabled: true, mem_size_mib: 1024, vcpu_count: 2 }
    }
}

impl NetworkInterfaces {
    /// The guest's `eth0`, on the host's `tap0`, with the given MAC address.
    pub fn build(mac_address: &str) -> (r: NetworkInterfaces)
        ensures
            r.host_dev_name@ == "tap0"@,
            r.iface_id@ == "eth0"@,
            r.guest_mac@ == mac_address@,
    {
        NetworkInterfaces {
            host_dev_name: String::from_str("tap0"),
            iface_id: String::from_str("eth0"),
            guest_mac: String::from_str(mac_address),
        }
    }
}

impl ConfigFile {
    /// The configuration of a VM booted from the images staged for it under
    /// `working_base`: one writable root drive, two vCPUs with
    /// hyper-threading, 1024 MiB of memory, no optional section.
    pub open spec fn is_default_for(&self, working_base: Seq<char>, uuid: Seq<char>) -> bool {
        &&& self.boot_source.is_default_for(working_base, uuid)
        &&& self.drives@.len() == 1
        &&& self.drives@[0].is_root_fs_for(false, true, working_base, uuid)
        &&& self.machine_config.ht_enabled
        &&& self.machine_config.mem_size_mib == 1024
        &&& self.machine_config.vcpu_count == 2
        &&& self.balloon.is_none()
        &&& self.network_interfaces.is_none()
        &&& self.vsock.is_none()
        &&& self.logger.is_none()
        &&& self.metrics.is_none()
        &&& self.mmds_config.is_none()
    }

    pub fn build(uuid: &str, working_base: &str) -> (r: ConfigFile)
        ensures
            r.is_default_for(working_base@, uuid@),
    {
        let boot_source = BootSource::build(uuid, working_base);
        let mut drives: Vec<Drive> = Vec::with_capacity(3);
        drives.push(Drive::build(false, true, uuid, working_base));
        ConfigFile {
            boot_source,
            drives,
            machine_config: MachineConfig::build(),
            balloon: None,
            network_interfaces: None,
            vsock: None,
            logger: None,
            metrics: None,
            mmds_config: None,
        }
    }
}

} // verus!
