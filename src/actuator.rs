use vstd::prelude::*;
use vstd::string::StringExecFns;

use crate::engine::{error_message, EngineError};
use crate::ids::{hyphenated_text, hyphenated_uuid_text};
use crate::interface::{LaunchResult, ShutdownResult, Task, ACTION_LAUNCH, ACTION_SHUTDOWN};
use crate::paths::{join, join_path};

verus! {

/// A node that boots one hypervisor process from fixed paths.
pub struct Actuator {
    pub firecracker_binary: String,
    pub jailer_binary: String,
    pub config_base_dir: String,
    pub socket_base: String,
}

impl Actuator {
    pub fn init() -> (r: Actuator)
        ensures
            r.firecracker_binary@ == "/usr/bin/firecracker"@,
            r.jailer_binary@ == "/usr/bin/jailer"@,
            r.config_base_dir@ == "/var/lib/impulse/machine"@,
            r.socket_base@ == "/tmp/impulse/socket"@,
    {
        Actuator {
            firecracker_binary: String::from_str("/usr/bin/firecracker"),
            jailer_binary: String::from_str("/usr/bin/jailer"),
            config_base_dir: String::from_str("/var/lib/impulse/machine"),
            socket_base: String::from_str("/tmp/impulse/socket"),
        }
    }

    /// The hypervisor's arguments for a boot: its API socket and its
    /// configuration file, both under this node's bases.
    pub fn boot_args(&self) -> (r: Vec<String>)
        ensures
            r@.len() == 4,
            r@[0]@ == "--api-sock"@,
            r@[1]@ == join(self.socket_base@, "socket_name_goes_here.socket"@),
            r@[2]@ == "--config-file"@,
            r@[3]@ == join(self.config_base_dir@, "config_file_name_goes_here.json"@),
    {
        let mut r: Vec<String> = Vec::with_capacity(4);
        r.push(String::from_str("--api-sock"));
        r.push(join_path(self.socket_base.as_str(), "socket_name_goes_here.socket"));
        r.push(String::from_str("--config-file"));
        r.push(join_path(self.config_base_dir.as_str(), "config_file_name_goes_here.json"));
        r
    }
}

/// The body of a node's register, controller and delist calls.
#[derive(Debug)]
pub struct NodeId {
    pub node_id: String,
}

/// The node's calls that carry only its id.
#[derive(Debug, Clone, Copy, PartialEq, Eq, Structural)]
pub enum InterfaceClientRequest {
    Register,
    Controller,
    Delist,
}

impl InterfaceClientRequest {
    /// The request body for the node with UUID `node_id`: the id in
    /// hyphenated form.
    pub fn build(&self, node_id: u128) -> (r: NodeId)
        ensures
            r.node_id@ == hyphenated_text(node_id),
    {
        NodeId { node_id: hyphenated_uuid_text(node_id) }
    }
}

/// What a node does with a task from its stream.
#[derive(Debug)]
pub enum TaskStep {
    Launch(String),
    Shutdown(String),
    Ignore,
}

/// Decides a task: launch or shut down the VM it names, or ignore it.
pub fn next_step(task: &Task) -> (r: TaskStep)
    ensures
        task.action == ACTION_LAUNCH ==> (r matches TaskStep::Launch(id) && id@ == task.id@),
        task.action == ACTION_SHUTDOWN ==> (r matches TaskStep::Shutdown(id) && id@ == task.id@),
        task.action != ACTION_LAUNCH && task.action != ACTION_SHUTDOWN ==> r is Ignore,
{
    if task.action == ACTION_LAUNCH {
        TaskStep::Launch(task.id.clone())
    } else if task.action == ACTION_SHUTDOWN {
        TaskStep::Shutdown(task.id.clone())
    } else {
        TaskStep::Ignore
    }
}

/// The report of a launch of the VM `id`: the VM's name where the engine
/// launched it, the engine's diagnostic where it failed.
pub fn launch_report(id: &str, outcome: &Result<(), EngineError>) -> (r: LaunchResult)
    ensures
        r.launched == outcome.is_ok(),
        outcome.is_ok() ==> r.details@ == id@,
        outcome.is_err() ==> r.details@ == error_message(outcome->Err_0),
{
    match outcome {
        Ok(()) => LaunchResult { launched: true, details: String::from_str(id) },
        Err(e) => LaunchResult { launched: false, details: e.message() },
    }
}

/// The report of a shutdown of the VM `id`, in the same way.
pub fn shutdown_report(id: &str, outcome: &Result<(), EngineError>) -> (r: ShutdownResult)
    ensures
        r.shutdown == outcome.is_ok(),
        outcome.is_ok() ==> r.details@ == id@,
        outcome.is_err() ==> r.details@ == error_message(outcome->Err_0),
{
    match outcome {
        Ok(()) => ShutdownResult { shutdown: true, details: String::from_str(id) },
        Err(e) => ShutdownResult { shutdown: false, details: e.message() },
    }
}

} // verus!
