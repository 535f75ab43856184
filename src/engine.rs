use vstd::prelude::*;
use vstd::string::StringExecFns;

use std::collections::HashMap;

use crate::ids::{hex_value, hyphenated_digits, is_hyphenated_form, is_simple_form, parsed_uuid, simple_text, simple_uuid_text, uuid_from_text};
use crate::layer3::{Class, Layer3};
use crate::layer_two::LayerTwo;
use crate::micro_vm::MicroVM;

verus! {

broadcast use vstd::std_specs::hash::group_hash_axioms;

/// Why an engine operation failed.
#[derive(Debug)]
pub enum EngineError {
    /// The VM name is not a UUID.
    MalformedUuid,
    /// Writing the VM's configuration or its directories failed.
    ConfigIo(String),
    /// Copying a boot image into the VM's directory failed.
    ImageStaging(String),
    /// The supervisor did not start, or did not stop, the VM's unit.
    Supervisor,
}

pub open spec fn error_message(e: EngineError) -> Seq<char> {
    match e {
        EngineError::MalformedUuid => "the VM name is not a UUID"@,
        EngineError::ConfigIo(d) => "could not write the VM configuration: "@ + d@,
        EngineError::ImageStaging(d) => "could not stage the VM images: "@ + d@,
        EngineError::Supervisor => "the supervisor reported a failure"@,
    }
}

impl EngineError {
    /// A diagnostic for the node's result report.
    pub fn message(&self) -> (r: String)
        ensures
            r@ == error_message(*self),
    {
        match self {
            EngineError::MalformedUuid => String::from_str("the VM name is not a UUID"),
            EngineError::ConfigIo(d) => {
                let mut m = String::from_str("could not write the VM configuration: ");
                m.append(d.as_str());
                m
            },
            EngineError::ImageStaging(d) => {
                let mut m = String::from_str("could not stage the VM images: ");
                m.append(d.as_str());
                m
            },
            EngineError::Supervisor => String::from_str("the supervisor reported a failure"),
        }
    }
}

/// What launching a VM takes: its key in the table of launched VMs, its
/// planned resources, and the arguments for the supervisor.
pub struct LaunchPlan {
    pub id: u128,
    pub micro_vm: MicroVM,
    pub supervisor_args: Vec<String>,
}

/// What stopping a running VM takes: its key, and the arguments for the
/// stop control.
pub struct ShutdownPlan {
    pub id: u128,
    pub stop_args: Vec<String>,
}

/// Drives the VMs of one node: plans their resources, and keeps the table
/// of the ones whose supervised process started and was not yet stopped.
pub struct Engine {
    pub firecracker_binary: String,
    pub jailer_binary: String,
    pub config_base: String,
    pub socket_base: String,
    pub working_base: String,
    pub images_base: String,
    pub launched_vms: HashMap<u128, MicroVM>,
    pub layer2: LayerTwo,
    pub layer3: Layer3,
    pub active: bool,
}

pub open spec fn strings(v: Seq<String>) -> Seq<Seq<char>> {
    v.map_values(|s: String| s@)
}

/// Everything but the table of launched VMs is the same in `a` and `b`.
pub open spec fn same_setup(a: &Engine, b: &Engine) -> bool {
    &&& a.firecracker_binary == b.firecracker_binary
    &&& a.jailer_binary == b.jailer_binary
    &&& a.config_base == b.config_base
    &&& a.socket_base == b.socket_base
    &&& a.working_base == b.working_base
    &&& a.images_base == b.images_base
    &&& a.layer2 == b.layer2
    &&& a.layer3 == b.layer3
    &&& a.active == b.active
}

impl Engine {
    /// The supervisor's arguments that run the hypervisor for `vm` in the
    /// VM's own unit and slice.
    pub open spec fn supervisor_args_for(&self, vm: MicroVM) -> Seq<Seq<char>> {
        seq![
            vm.unit_name@,
            vm.unit_slice@,
            self.firecracker_binary@,
            "--api-sock"@,
            vm.api_socket@,
            "--config-file"@,
            vm.config_path@,
        ]
    }

    /// What launching the VM with key `id` takes, under this engine's bases.
    pub open spec fn is_launch_plan(&self, plan: LaunchPlan, id: u128) -> bool {
        &&& plan.id == id
        &&& plan.micro_vm.is_laid_out(
            simple_text(id),
            self.config_base@,
            self.socket_base@,
            self.working_base@,
        )
        &&& strings(plan.supervisor_args@) == self.supervisor_args_for(plan.micro_vm)
    }

    /// An engine with the default binaries and base directories, nothing
    /// launched, and a class B address pool.
    pub fn init() -> (r: Engine)
        ensures
            r.firecracker_binary@ == "/usr/bin/firecracker"@,
            r.jailer_binary@ == "/usr/bin/jailer"@,
            r.config_base@ == "/var/lib/impulse_actuator/machine"@,
            r.socket_base@ == "/tmp/impulse_actuator/socket"@,
            r.working_base@ == "/srv/impulse_actuator/"@,
            r.images_base@ == "/var/lib/impulse_actuator/images"@,
            r.launched_vms@ == Map::<u128, MicroVM>::empty(),
            r.layer3.wf(),
            r.layer3.class_view() == Class::B,
            r.layer3.assigned_view().len() == 0,
            r.active,
    {
        Engine {
            firecracker_binary: String::from_str("/usr/bin/firecracker"),
            jailer_binary: String::from_str("/usr/bin/jailer"),
            config_base: String::from_str("/var/lib/impulse_actuator/machine"),
            socket_base: String::from_str("/tmp/impulse_actuator/socket"),
            working_base: String::from_str("/srv/impulse_actuator/"),
            images_base: String::from_str("/var/lib/impulse_actuator/images"),
            launched_vms: HashMap::with_capacity(20),
            layer2: LayerTwo::init(),
            layer3: Layer3::init(),
            active: true,
        }
    }

    /// Reads a VM name as a UUID.
    pub fn parse_uuid(uuid: &str) -> (r: Result<u128, EngineError>)
        ensures
            match parsed_uuid(uuid@) {
                Some(v) => r matches Ok(x) && x == v,
                None => r matches Err(EngineError::MalformedUuid),
            },
            is_simple_form(uuid@) ==> (r matches Ok(x) && x == hex_value(uuid@) as u128),
            is_hyphenated_form(uuid@) ==> (r matches Ok(x) && x == hex_value(
                hyphenated_digits(uuid@),
            ) as u128),
            r is Ok ==> uuid@.len() == 32 || uuid@.len() == 36 || uuid@.len() == 45,
    {
        match uuid_from_text(uuid) {
            Some(v) => Ok(v),
            None => Err(EngineError::MalformedUuid),
        }
    }

    /// Plans the VM with key `id`: its resources, named by the simple form
    /// of the key, and the supervisor call that runs it.
    pub fn plan_launch(&self, id: u128) -> (r: LaunchPlan)
        ensures
            self.is_launch_plan(r, id),
    {
        let name = simple_uuid_text(id);
        let micro_vm = MicroVM::init(
            name.as_str(),
            self.config_base.as_str(),
            self.socket_base.as_str(),
            self.working_base.as_str(),
        );
        let mut args: Vec<String> = Vec::with_capacity(7);
        args.push(micro_vm.unit_name.clone());
        args.push(micro_vm.unit_slice.clone());
        args.push(self.firecracker_binary.clone());
        args.push(String::from_str("--api-sock"));
        args.push(micro_vm.api_socket.clone());
        args.push(String::from_str("--config-file"));
        args.push(micro_vm.config_path.clone());
        let r = LaunchPlan { id, micro_vm, supervisor_args: args };
        assert(strings(r.supervisor_args@) =~= self.supervisor_args_for(r.micro_vm));
        r
    }

    /// The first step of a launch: reads the VM name and plans the VM. A
    /// name that is not a UUID is refused.
    pub fn launch_vm(&self, uuid: &str) -> (r: Result<LaunchPlan, EngineError>)
        ensures
            match parsed_uuid(uuid@) {
                Some(v) => r matches Ok(plan) && self.is_launch_plan(plan, v),
                None => r matches Err(EngineError::MalformedUuid),
            },
    {
        let id = Engine::parse_uuid(uuid)?;
        Ok(self.plan_launch(id))
    }

    /// The last step of a launch, once the supervisor has answered: a VM
    /// whose process started joins the table of launched VMs; otherwise the
    /// table stays as it was and the launch fails.
    pub fn complete_launch(&mut self, plan: LaunchPlan, supervisor_succeeded: bool) -> (r: Result<
        (),
        EngineError,
    >)
        ensures
            same_setup(final(self), old(self)),
            supervisor_succeeded ==> r is Ok && final(self).launched_vms@ == old(self).launched_vms@.insert(plan.id, plan.micro_vm),
            !supervisor_succeeded ==> (r matches Err(EngineError::Supervisor) && final(self).launched_vms@ == old(self).launched_vms@),
    {
        if supervisor_succeeded {
            self.launched_vms.insert(plan.id, plan.micro_vm);
            Ok(())
        } else {
            Err(EngineError::Supervisor)
        }
    }

    /// Whether the VM with key `id` is launched.
    pub fn is_launched(&self, id: u128) -> (r: bool)
        ensures
            r == self.launched_vms@.contains_key(id),
    {
        self.launched_vms.contains_key(&id)
    }

    /// The first step of a shutdown: reads the VM name and, for a launched
    /// VM, plans the stop of its slice. A VM that is not launched needs
    /// nothing (`None`).
    pub fn shutdown_vm(&self, uuid: &str) -> (r: Result<Option<ShutdownPlan>, EngineError>)
        ensures
            match parsed_uuid(uuid@) {
                None => r matches Err(EngineError::MalformedUuid),
                Some(v) => r is Ok && if self.launched_vms@.contains_key(v) {
                    r->Ok_0 matches Some(plan) && plan.id == v && strings(plan.stop_args@) == seq![
                        "stop"@,
                        self.launched_vms@[v].unit_slice@,
                    ]
                } else {
                    r->Ok_0 is None
                },
            },
    {
        let id = Engine::parse_uuid(uuid)?;
        match self.launched_vms.get(&id) {
            Some(micro_vm) => {
                let mut stop_args: Vec<String> = Vec::with_capacity(2);
                stop_args.push(String::from_str("stop"));
                stop_args.push(micro_vm.unit_slice.clone());
                let plan = ShutdownPlan { id, stop_args };
                assert(strings(plan.stop_args@) =~= seq!["stop"@, self.launched_vms@[id].unit_slice@]);
                Ok(Some(plan))
            },
            None => Ok(None),
        }
    }

    /// The last step of a shutdown, once the stop control has answered: a
    /// stopped VM leaves the table, and its record is handed back so that
    /// its files can be removed; a failed stop leaves it running.
    pub fn complete_shutdown(&mut self, id: u128, stop_succeeded: bool) -> (r: Result<
        Option<MicroVM>,
        EngineError,
    >)
        ensures
            same_setup(final(self), old(self)),
            stop_succeeded ==> (r matches Ok(removed) && final(self).launched_vms@ == old(self).launched_vms@.remove(id) && if old(self).launched_vms@.contains_key(id) {
                removed == Some(old(self).launched_vms@[id])
            } else {
                removed is None
            }),
            !stop_succeeded ==> (r matches Err(EngineError::Supervisor) && final(self).launched_vms@ == old(self).launched_vms@),
    {
        if stop_succeeded {
            Ok(self.launched_vms.remove(&id))
        } else {
            Err(EngineError::Supervisor)
        }
    }

    /// Marks the engine inactive, which tells the node to drain.
    pub fn shutdown(&mut self)
        ensures
            !final(self).active,
            final(self).launched_vms@ == old(self).launched_vms@,
            final(self).firecracker_binary == old(self).firecracker_binary,
            final(self).jailer_binary == old(self).jailer_binary,
            final(self).config_base == old(self).config_base,
            final(self).socket_base == old(self).socket_base,
            final(self).working_base == old(self).working_base,
            final(self).images_base == old(self).images_base,
            final(self).layer2 == old(self).layer2,
            final(self).layer3 == old(self).layer3,
    {
        self.active = false;
    }
}

} // verus!
