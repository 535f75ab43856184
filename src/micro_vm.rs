use vstd::prelude::*;
use vstd::string::StringExecFns;

use crate::config_file::{
    initrd_name, kernel_image_name, root_fs_name, staged_path, ConfigFile,
};
use crate::paths::{is_under, join, join_path, lemma_join_is_under, lemma_under_trans};

verus! {

/// The paths and supervisor unit names of one VM.
pub struct MicroVM {
    pub api_socket: String,
    pub config_file: ConfigFile,
    pub config_path: String,
    pub base: String,
    pub unit_name: String,
    pub unit_slice: String,
}

impl MicroVM {
    /// Each path of the VM named `uuid` is its base directory joined with
    /// the name, and the unit names carry the name too.
    pub open spec fn is_laid_out(
        &self,
        uuid: Seq<char>,
        config_base: Seq<char>,
        socket_base: Seq<char>,
        working_base: Seq<char>,
    ) -> bool {
        &&& self.api_socket@ == join(socket_base, uuid + ".socket"@)
        &&& self.config_path@ == join(join(config_base, uuid), "config_file.json"@)
        &&& self.base@ == join(working_base, uuid)
        &&& self.unit_name@ == "--unit="@ + uuid
        &&& self.unit_slice@ == "--slice="@ + uuid
        &&& self.config_file.is_default_for(working_base, uuid)
    }

    /// Plans the VM named `uuid`: its API socket, configuration file and
    /// working directory under the given bases, and its unit and slice.
    pub fn init(uuid: &str, config_base: &str, socket_base: &str, working_base: &str) -> (r:
        MicroVM)
        ensures
            r.is_laid_out(uuid@, config_base@, socket_base@, working_base@),
    {
        let mut socket_name = String::from_str(uuid);
        socket_name.append(".socket");
        let api_socket = join_path(socket_base, socket_name.as_str());
        let config_dir = join_path(config_base, uuid);
        let config_path = join_path(config_dir.as_str(), "config_file.json");
        let base = join_path(working_base, uuid);
        let mut unit_name = String::from_str("--unit=");
        unit_name.append(uuid);
        let mut unit_slice = String::from_str("--slice=");
        unit_slice.append(uuid);
        MicroVM {
            api_socket,
            config_file: ConfigFile::build(uuid, working_base),
            config_path,
            base,
            unit_name,
            unit_slice,
        }
    }

    /// The copies that stage the boot images: each pair is a source under
    /// `images` and its destination in the VM's working directory.
    pub fn image_copies(&self, images: &str) -> (r: Vec<(String, String)>)
        ensures
            r@.len() == 3,
            r@[0].0@ == join(images@, kernel_image_name()) && r@[0].1@ == join(
                self.base@,
                kernel_image_name(),
            ),
            r@[1].0@ == join(images@, initrd_name()) && r@[1].1@ == join(self.base@, initrd_name()),
            r@[2].0@ == join(images@, root_fs_name()) && r@[2].1@ == join(
                self.base@,
                root_fs_name(),
            ),
    {
        let mut r: Vec<(String, String)> = Vec::with_capacity(3);
        r.push(
            (join_path(images, "some_kernel_image"), join_path(self.base.as_str(), "some_kernel_image")),
        );
        r.push((join_path(images, "some_initrd"), join_path(self.base.as_str(), "some_initrd")));
        r.push((join_path(images, "some_root_fs"), join_path(self.base.as_str(), "some_root_fs")));
        r
    }
}

/// Path confinement: every path planned for a VM with a non-empty name lies
/// inside the base directory it was planned under, and so do the paths its
/// configuration names.
pub proof fn lemma_paths_confined(
    vm: MicroVM,
    uuid: Seq<char>,
    config_base: Seq<char>,
    socket_base: Seq<char>,
    working_base: Seq<char>,
)
    requires
        uuid.len() > 0,
        vm.is_laid_out(uuid, config_base, socket_base, working_base),
    ensures
        is_under(vm.api_socket@, socket_base),
        is_under(vm.config_path@, config_base),
        is_under(vm.base@, working_base),
        is_under(vm.config_file.boot_source.kernel_image_path@, working_base),
        is_under(vm.config_file.boot_source.initrd_path@, working_base),
        is_under(vm.config_file.drives@[0].path_on_host@, working_base),
{
    reveal_strlit("config_file.json");
    reveal_strlit("some_kernel_image");
    reveal_strlit("some_initrd");
    reveal_strlit("some_root_fs");
    lemma_join_is_under(socket_base, uuid + ".socket"@);
    lemma_join_is_under(config_base, uuid);
    lemma_join_is_under(join(config_base, uuid), "config_file.json"@);
    lemma_under_trans(vm.config_path@, join(config_base, uuid), config_base);
    lemma_join_is_under(working_base, uuid);
    let dir = join(working_base, uuid);
    lemma_join_is_under(dir, kernel_image_name());
    lemma_under_trans(staged_path(working_base, uuid, kernel_image_name()), dir, working_base);
    lemma_join_is_under(dir, initrd_name());
    lemma_under_trans(staged_path(working_base, uuid, initrd_name()), dir, working_base);
    lemma_join_is_under(dir, root_fs_name());
    lemma_under_trans(staged_path(working_base, uuid, root_fs_name()), dir, working_base);
}

} // verus!
