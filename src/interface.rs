use vstd::prelude::*;
use vstd::string::StringExecFns;

use crate::ids::{fresh_uuid, hyphenated_text, hyphenated_uuid_text, simple_text, simple_uuid_text, uuid_version};

verus! {

broadcast use vstd::seq_lib::group_to_multiset_ensures;

/// No operation: a node drops such a task.
pub const ACTION_NOOP: i32 = 0;

/// Launch the VM named by the task's id.
pub const ACTION_LAUNCH: i32 = 1;

/// Shut down the VM named by the task's id.
pub const ACTION_SHUTDOWN: i32 = 2;

/// A unit of work sent to every subscribed node.
#[derive(Debug)]
pub struct Task {
    pub action: i32,
    pub id: String,
}

impl Clone for Task {
    fn clone(&self) -> (r: Task)
        ensures
            r.action == self.action,
            r.id@ == self.id@,
    {
        Task { action: self.action, id: self.id.clone() }
    }
}

/// What a node reports after a launch task.
#[derive(Debug)]
pub struct LaunchResult {
    pub launched: bool,
    pub details: String,
}

impl Clone for LaunchResult {
    fn clone(&self) -> (r: LaunchResult)
        ensures
            r.launched == self.launched,
            r.details@ == self.details@,
    {
        LaunchResult { launched: self.launched, details: self.details.clone() }
    }
}

/// What a node reports after a shutdown task.
#[derive(Debug)]
pub struct ShutdownResult {
    pub shutdown: bool,
    pub details: String,
}

impl Clone for ShutdownResult {
    fn clone(&self) -> (r: ShutdownResult)
        ensures
            r.shutdown == self.shutdown,
            r.details@ == self.details@,
    {
        ShutdownResult { shutdown: self.shutdown, details: self.details.clone() }
    }
}

/// The status code that an RPC error carries to the caller.
#[derive(Debug, Clone, Copy, PartialEq, Eq, Structural)]
pub enum StatusCode {
    NotFound,
    InvalidArgument,
}

/// An RPC failure: a status code and a message for the caller.
#[derive(Debug)]
pub struct RpcError {
    pub code: StatusCode,
    pub message: String,
}

/// The message of the error that a call waiting for a result gets when the
/// result channel closes.
pub open spec fn closed_channel_message() -> Seq<char> {
    "Something went wrong!"@
}

/// The message of the error that a node gets when it asks for tasks before
/// it registered.
pub open spec fn unregistered_message() -> Seq<char> {
    "Node was not found... please register first!"@
}

/// The message of the error that delisting an unknown node gives.
pub open spec fn unknown_node_message(node_id: Seq<char>) -> Seq<char> {
    "Node "@ + node_id + " was not found... please try again!"@
}

fn closed_channel_error() -> (r: RpcError)
    ensures
        r.code == StatusCode::NotFound,
        r.message@ == closed_channel_message(),
{
    RpcError { code: StatusCode::NotFound, message: String::from_str("Something went wrong!") }
}

/// The user-facing side of the interface: status queries, and requests that
/// become tasks for the nodes.
pub struct External {
    pub status: String,
    pub version: String,
}

impl External {
    pub fn init() -> (r: External)
        ensures
            r.status@ == "Running!"@,
            r.version@ == "v0.1.0"@,
    {
        External { status: String::from_str("Running!"), version: String::from_str("v0.1.0") }
    }

    pub fn system_status(&self) -> (r: String)
        ensures
            r@ == self.status@,
    {
        self.status.clone()
    }

    pub fn system_version(&self) -> (r: String)
        ensures
            r@ == self.version@,
    {
        self.version.clone()
    }

    /// The launch task for the VM whose UUID is `id`.
    pub fn launch_task(&self, id: u128) -> (r: Task)
        ensures
            r.action == ACTION_LAUNCH,
            r.id@ == simple_text(id),
    {
        Task { action: ACTION_LAUNCH, id: simple_uuid_text(id) }
    }

    /// A launch request: the task to publish, for a VM with a fresh random UUID.
    pub fn launch_vm(&self) -> (r: Task)
        ensures
            r.action == ACTION_LAUNCH,
            exists|id: u128| uuid_version(id) == 4 && r.id@ == simple_text(id),
    {
        let id = fresh_uuid();
        self.launch_task(id)
    }

    /// A shutdown request for the VM `name`: the task to publish.
    pub fn shutdown_vm(&self, name: String) -> (r: Task)
        ensures
            r.action == ACTION_SHUTDOWN,
            r.id@ == name@,
    {
        Task { action: ACTION_SHUTDOWN, id: name }
    }

    /// The answer to a launch request, given the first launch result that
    /// arrived after the task was published, or `None` where the result
    /// channel closed first.
    pub fn launch_reply(received: Option<LaunchResult>) -> (r: Result<LaunchResult, RpcError>)
        ensures
            match received {
                Some(m) => r == Ok::<LaunchResult, RpcError>(m),
                None => r.is_err() && r->Err_0.code == StatusCode::NotFound
                    && r->Err_0.message@ == closed_channel_message(),
            },
    {
        match received {
            Some(m) => Ok(m),
            None => Err(closed_channel_error()),
        }
    }

    /// The answer to a shutdown request, given the first shutdown result
    /// that arrived after the task was published, or `None` where the result
    /// channel closed first.
    pub fn shutdown_reply(received: Option<ShutdownResult>) -> (r: Result<ShutdownResult, RpcError>)
        ensures
            match received {
                Some(m) => r == Ok::<ShutdownResult, RpcError>(m),
                None => r.is_err() && r->Err_0.code == StatusCode::NotFound
                    && r->Err_0.message@ == closed_channel_message(),
            },
    {
        match received {
            Some(m) => Ok(m),
            None => Err(closed_channel_error()),
        }
    }
}

/// The registry after `node_id` is delisted: its first entry is removed,
/// where there is one.
pub open spec fn delisted(nodes: Seq<Seq<char>>, node_id: Seq<char>) -> Seq<Seq<char>> {
    match nodes.index_of_first(node_id) {
        Some(i) => nodes.remove(i),
        None => nodes,
    }
}

/// The node-facing side of the interface: the registry of nodes, and the
/// decisions on their calls.
pub struct Internal {
    pub system_id: String,
    pub nodes: Vec<String>,
}

impl Internal {
    /// The ids of the registered nodes, in the order they registered.
    pub open spec fn nodes(&self) -> Seq<Seq<char>> {
        self.nodes@.map_values(|s: String| s@)
    }

    /// An interface with an empty registry, identified by the UUID `system_id`.
    pub fn with_system_id(system_id: u128) -> (r: Internal)
        ensures
            r.system_id@ == hyphenated_text(system_id),
            r.nodes() == Seq::<Seq<char>>::empty(),
    {
        let r = Internal { system_id: hyphenated_uuid_text(system_id), nodes: Vec::with_capacity(20) };
        assert(r.nodes() =~= Seq::<Seq<char>>::empty());
        r
    }

    /// An interface with an empty registry and a fresh random identity.
    pub fn init() -> (r: Internal)
        ensures
            exists|id: u128| uuid_version(id) == 4 && r.system_id@ == hyphenated_text(id),
            r.nodes() == Seq::<Seq<char>>::empty(),
    {
        Internal::with_system_id(fresh_uuid())
    }

    /// The number of registered nodes.
    pub fn node_count(&self) -> (r: usize)
        ensures
            r == self.nodes().len(),
    {
        self.nodes.len()
    }

    /// Whether `node_id` is registered.
    pub fn is_registered(&self, node_id: &str) -> (r: bool)
        ensures
            r == self.nodes().contains(node_id@),
    {
        let r = self.find(node_id);
        proof {
            if let Some(i) = r {
                assert(self.nodes()[i as int] == node_id@);
            }
        }
        r.is_some()
    }

    /// The first position of `node_id` in the registry.
    fn find(&self, node_id: &str) -> (r: Option<usize>)
        ensures
            match r {
                Some(i) => {
                    &&& i < self.nodes().len()
                    &&& self.nodes()[i as int] == node_id@
                    &&& forall|j: int| 0 <= j < i ==> self.nodes()[j] != node_id@
                },
                None => !self.nodes().contains(node_id@),
            },
    {
        let target = String::from_str(node_id);
        let mut i: usize = 0;
        while i < self.nodes.len()
            invariant
                i <= self.nodes@.len(),
                target@ == node_id@,
                forall|j: int| 0 <= j < i ==> self.nodes()[j] != node_id@,
            decreases self.nodes@.len() - i,
        {
            if self.nodes[i] == target {
                return Some(i);
            }
            i = i + 1;
        }
        assert(!self.nodes().contains(node_id@));
        None
    }

    /// Adds `node_id` to the registry and answers with the interface's id.
    pub fn register(&mut self, node_id: String) -> (r: String)
        ensures
            final(self).nodes() == old(self).nodes().push(node_id@),
            final(self).system_id == old(self).system_id,
            r@ == old(self).system_id@,
    {
        self.nodes.push(node_id);
        assert(self.nodes() =~= old(self).nodes().push(node_id@));
        self.system_id.clone()
    }

    /// Decides a node's request for its task stream: granted only to a
    /// registered node.
    pub fn controller(&self, node_id: &str) -> (r: Result<(), RpcError>)
        ensures
            r.is_ok() == self.nodes().contains(node_id@),
            r.is_err() ==> r->Err_0.code == StatusCode::NotFound
                && r->Err_0.message@ == unregistered_message(),
    {
        if self.is_registered(node_id) {
            Ok(())
        } else {
            Err(
                RpcError {
                    code: StatusCode::NotFound,
                    message: String::from_str("Node was not found... please register first!"),
                },
            )
        }
    }

    /// Whether a node's task stream passes `task` on: launch and shutdown
    /// tasks pass, anything else is dropped.
    pub fn forwards(task: &Task) -> (r: bool)
        ensures
            r == (task.action == ACTION_LAUNCH || task.action == ACTION_SHUTDOWN),
    {
        task.action == ACTION_LAUNCH || task.action == ACTION_SHUTDOWN
    }

    /// Removes `node_id` from the registry and answers with the interface's
    /// id; an unknown node leaves the registry as it was.
    pub fn delist(&mut self, node_id: &str) -> (r: Result<String, RpcError>)
        ensures
            final(self).nodes() == delisted(old(self).nodes(), node_id@),
            final(self).system_id == old(self).system_id,
            r.is_ok() == old(self).nodes().contains(node_id@),
            r.is_ok() ==> r->Ok_0@ == old(self).system_id@,
            r.is_ok() ==> final(self).nodes().len() == old(self).nodes().len() - 1,
            r.is_ok() ==> final(self).nodes().to_multiset() == old(self).nodes().to_multiset().remove(
                node_id@,
            ),
            r.is_err() ==> r->Err_0.code == StatusCode::NotFound
                && r->Err_0.message@ == unknown_node_message(node_id@),
    {
        proof {
            old(self).nodes().index_of_first_ensures(node_id@);
        }
        match self.find(node_id) {
            Some(i) => {
                proof {
                    let k = old(self).nodes().index_of_first(node_id@).unwrap();
                    assert(old(self).nodes()[i as int] == node_id@);
                    assert(!(k < i));
                    assert(!(i < k));
                }
                self.nodes.remove(i);
                assert(self.nodes() =~= old(self).nodes().remove(i as int));
                Ok(self.system_id.clone())
            },
            None => {
                let mut message = String::from_str("Node ");
                message.append(node_id);
                message.append(" was not found... please try again!");
                Err(RpcError { code: StatusCode::NotFound, message })
            },
        }
    }
}

/// The registry after each node of `ids` in turn registers and then delists.
pub open spec fn after_pairs(nodes: Seq<Seq<char>>, ids: Seq<Seq<char>>) -> Seq<Seq<char>>
    decreases ids.len(),
{
    if ids.len() == 0 {
        nodes
    } else {
        after_pairs(delisted(nodes.push(ids[0]), ids[0]), ids.drop_first())
    }
}

/// A register followed by a delist of the same node leaves the registry
/// holding the same nodes, as many times each, and of the same size.
pub proof fn lemma_register_delist(nodes: Seq<Seq<char>>, node_id: Seq<char>)
    ensures
        delisted(nodes.push(node_id), node_id).to_multiset() == nodes.to_multiset(),
        delisted(nodes.push(node_id), node_id).len() == nodes.len(),
{
    let s = nodes.push(node_id);
    assert(s.contains(node_id)) by {
        assert(s[nodes.len() as int] == node_id);
    }
    s.index_of_first_ensures(node_id);
    let i = s.index_of_first(node_id).unwrap();
    assert(s.remove(i).to_multiset() =~= s.to_multiset().remove(s[i]));
    assert(nodes.to_multiset().insert(node_id).remove(node_id) =~= nodes.to_multiset());
}

/// Registry consistency: after any run of register/delist pairs, the
/// registry holds the same nodes as before, each as often, and has the
/// same size.
pub proof fn lemma_pairs_keep_registry(nodes: Seq<Seq<char>>, ids: Seq<Seq<char>>)
    ensures
        after_pairs(nodes, ids).to_multiset() == nodes.to_multiset(),
        after_pairs(nodes, ids).len() == nodes.len(),
    decreases ids.len(),
{
    if ids.len() > 0 {
        lemma_register_delist(nodes, ids[0]);
        let next = delisted(nodes.push(ids[0]), ids[0]);
        lemma_pairs_keep_registry(next, ids.drop_first());
        next.to_multiset_ensures();
        nodes.to_multiset_ensures();
    }
}


/// One registry call: `(true, id)` registers `id`, `(false, id)` delists it.
pub open spec fn apply_call(nodes: Seq<Seq<char>>, call: (bool, Seq<char>)) -> Seq<Seq<char>> {
    if call.0 {
        nodes.push(call.1)
    } else {
        delisted(nodes, call.1)
    }
}

/// The registry after a run of calls, in order.
pub open spec fn run_calls(nodes: Seq<Seq<char>>, calls: Seq<(bool, Seq<char>)>) -> Seq<
    Seq<char>,
>
    decreases calls.len(),
{
    if calls.len() == 0 {
        nodes
    } else {
        run_calls(apply_call(nodes, calls[0]), calls.drop_first())
    }
}

/// How many of `calls` register a node; with `Some(id)`, only those that
/// register `id`.
pub open spec fn registers(calls: Seq<(bool, Seq<char>)>, id: Option<Seq<char>>) -> nat
    decreases calls.len(),
{
    if calls.len() == 0 {
        0
    } else {
        (if calls[0].0 && (id is None || id == Some(calls[0].1)) {
            1nat
        } else {
            0nat
        }) + registers(calls.drop_first(), id)
    }
}

/// How many of `calls`, run from `nodes`, are delists that succeed (the
/// node is registered when the call comes); with `Some(id)`, only those
/// that delist `id`.
pub open spec fn successful_delists(
    nodes: Seq<Seq<char>>,
    calls: Seq<(bool, Seq<char>)>,
    id: Option<Seq<char>>,
) -> nat
    decreases calls.len(),
{
    if calls.len() == 0 {
        0
    } else {
        (if !calls[0].0 && nodes.contains(calls[0].1) && (id is None || id == Some(calls[0].1)) {
            1nat
        } else {
            0nat
        }) + successful_delists(apply_call(nodes, calls[0]), calls.drop_first(), id)
    }
}

proof fn lemma_delisted_multiset(nodes: Seq<Seq<char>>, node_id: Seq<char>)
    ensures
        nodes.contains(node_id) ==> delisted(nodes, node_id).to_multiset()
            == nodes.to_multiset().remove(node_id),
        nodes.contains(node_id) ==> delisted(nodes, node_id).len() == nodes.len() - 1,
        !nodes.contains(node_id) ==> delisted(nodes, node_id) == nodes,
{
    nodes.index_of_first_ensures(node_id);
    nodes.to_multiset_ensures();
}

/// Registry consistency over any run of register and delist calls, each
/// taken whole under the registry's lock: the registry's size is the
/// number of registers less the number of successful delists, and each id
/// is held as many times as it was registered less the times it was
/// successfully delisted, so an id is registered exactly when that count
/// is positive.
pub proof fn lemma_registry_counts(nodes: Seq<Seq<char>>, calls: Seq<(bool, Seq<char>)>, id: Seq<char>)
    ensures
        run_calls(nodes, calls).len() == nodes.len() + registers(calls, None) - successful_delists(
            nodes,
            calls,
            None,
        ),
        run_calls(nodes, calls).to_multiset().count(id) == nodes.to_multiset().count(id)
            + registers(calls, Some(id)) - successful_delists(nodes, calls, Some(id)),
        run_calls(nodes, calls).contains(id) <==> nodes.to_multiset().count(id) + registers(
            calls,
            Some(id),
        ) - successful_delists(nodes, calls, Some(id)) > 0,
    decreases calls.len(),
{
    if calls.len() > 0 {
        let call = calls[0];
        let next = apply_call(nodes, call);
        lemma_registry_counts(next, calls.drop_first(), id);
        lemma_delisted_multiset(nodes, call.1);
        nodes.to_multiset_ensures();
        if call.0 {
            assert(next.to_multiset() == nodes.to_multiset().insert(call.1));
        }
    }
    run_calls(nodes, calls).to_multiset_ensures();
}

} // verus!
