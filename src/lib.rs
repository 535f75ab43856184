//! Control plane for launching and terminating microVMs: the interface's
//! dispatch core, the actuator's task handling, and the engine that plans
//! each VM's resources and tracks the ones that run.

use vstd::prelude::*;

pub mod actuator;
pub mod config_file;
pub mod engine;
pub mod ids;
pub mod interface;
pub mod layer3;
pub mod layer_two;
pub mod micro_vm;
pub mod paths;
pub mod system_error;

verus! {

} // verus!
