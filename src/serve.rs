//! Launching the node and its RPC sidecar, and waiting for both.

use vstd::prelude::*;

use crate::effect::{clone_strings, strings_view, text, Observation};
use crate::paths::{concat_text, decimal, decimal_text, join, join_spec, Layout};

verus! {

/// An environment variable set for a launched process.
#[derive(Debug, Clone, PartialEq, Eq)]
pub struct EnvVar {
    pub name: String,
    pub value: String,
}

/// A long-running process to launch: its executable, arguments and
/// environment overrides.
#[derive(Debug, Clone, PartialEq, Eq)]
pub struct ManagedProcess {
    pub program: String,
    pub args: Vec<String>,
    pub env: Vec<EnvVar>,
}

/// The two processes that serving runs side by side.
#[derive(Debug, Clone, Copy, PartialEq, Eq)]
pub enum Role {
    Node,
    Sidecar,
}

/// Why a launch failed.
#[derive(Debug, Clone, PartialEq, Eq)]
pub enum LaunchError {
    /// The process ran and exited unsuccessfully, with its exit code if any.
    Exited(Role, Option<i32>),
    /// The process could not be started; the underlying text.
    NotStarted(Role, String),
    /// The launch was answered with an observation that is no run outcome.
    UnexpectedObservation(Role),
}

/// The name of a role in messages.
pub open spec fn role_name(role: Role) -> Seq<char> {
    match role {
        Role::Node => "Omni-node"@,
        Role::Sidecar => "Eth-rpc"@,
    }
}

impl LaunchError {
    pub open spec fn message_spec(self) -> Seq<char> {
        match self {
            LaunchError::Exited(role, Some(c)) => role_name(role) + " failed to start with exit status: "@ + decimal(c as int),
            LaunchError::Exited(role, None) => role_name(role) + " failed to start without an exit status"@,
            LaunchError::NotStarted(role, e) => "Failed to run "@ + role_name(role) + ": "@ + e@,
            LaunchError::UnexpectedObservation(role) => role_name(role) + ": unexpected observation"@,
        }
    }

    /// A human-readable account of the error.
    pub fn message(&self) -> (r: String)
        ensures
            r@ == self.message_spec(),
    {
        match self {
            LaunchError::Exited(role, Some(c)) => {
                let mut r = name_of(role);
                r.append(" failed to start with exit status: ");
                let code = decimal_text(*c);
                r.append(code.as_str());
                r
            },
            LaunchError::Exited(role, None) => {
                let mut r = name_of(role);
                r.append(" failed to start without an exit status");
                r
            },
            LaunchError::NotStarted(role, e) => {
                let name = name_of(role);
                let mut r = concat_text("Failed to run ", name.as_str());
                r.append(": ");
                r.append(e.as_str());
                r
            },
            LaunchError::UnexpectedObservation(role) => {
                let mut r = name_of(role);
                r.append(": unexpected observation");
                r
            },
        }
    }
}

fn name_of(role: &Role) -> (r: String)
    ensures
        r@ == role_name(*role),
{
    match role {
        Role::Node => String::from_str("Omni-node"),
        Role::Sidecar => String::from_str("Eth-rpc"),
    }
}

/// What a launch amounts to, from the observation of its run.
pub open spec fn launch_spec(role: Role, obs: Observation) -> Result<(), LaunchError> {
    match obs {
        Observation::Completed => Ok(()),
        Observation::ExitedWith(c) => Err(LaunchError::Exited(role, c)),
        Observation::Failed(e) => Err(LaunchError::NotStarted(role, e)),
        _ => Err(LaunchError::UnexpectedObservation(role)),
    }
}

/// Judges a launch by the observation of its run: success exactly when the
/// process exited with status zero.
pub fn launch_result(role: Role, obs: Observation) -> (r: Result<(), LaunchError>)
    ensures
        r == launch_spec(role, obs),
{
    match obs {
        Observation::Completed => Ok(()),
        Observation::ExitedWith(c) => Err(LaunchError::Exited(role, c)),
        Observation::Failed(e) => Err(LaunchError::NotStarted(role, e)),
        _ => Err(LaunchError::UnexpectedObservation(role)),
    }
}

/// The node's arguments: those given, or, where none are, a pointer to the
/// canonical chain specification.
pub fn serve_args(layout: &Layout, given: &Vec<String>) -> (r: Vec<String>)
    ensures
        given@.len() > 0 ==> strings_view(r@) == strings_view(given@),
        given@.len() == 0 ==> strings_view(r@) == seq![
            "--chain"@,
            join_spec(layout.chain_specs_dir@, "chain_spec.json"@),
        ],
{
    if given.len() > 0 {
        clone_strings(given)
    } else {
        let mut r: Vec<String> = Vec::new();
        r.push(text("--chain"));
        r.push(join(&layout.chain_specs_dir, "chain_spec.json"));
        assert(strings_view(r@) =~= seq!["--chain"@, join_spec(layout.chain_specs_dir@, "chain_spec.json"@)]);
        r
    }
}

/// The node launch: the omni node of the layout with `args`.
pub fn run(layout: &Layout, args: &Vec<String>) -> (r: ManagedProcess)
    ensures
        r.program@ == join_spec(layout.binaries_dir@, "polkadot-omni-node"@),
        strings_view(r.args@) == strings_view(args@),
        r.env@.len() == 0,
{
    ManagedProcess {
        program: join(&layout.binaries_dir, "polkadot-omni-node"),
        args: clone_strings(args),
        env: Vec::new(),
    }
}

/// The sidecar launch: the RPC sidecar of the layout with `args`, logging at
/// debug level.
pub fn run_eth(layout: &Layout, args: &Vec<String>) -> (r: ManagedProcess)
    ensures
        r.program@ == join_spec(layout.binaries_dir@, "eth-rpc"@),
        strings_view(r.args@) == strings_view(args@),
        r.env@.len() == 1,
        r.env@[0].name@ == "RUST_LOG"@,
        r.env@[0].value@ == "debug"@,
{
    let mut env: Vec<EnvVar> = Vec::new();
    env.push(EnvVar { name: text("RUST_LOG"), value: text("debug") });
    ManagedProcess { program: join(&layout.binaries_dir, "eth-rpc"), args: clone_strings(args), env }
}

/// Serving: the node and the sidecar run side by side, each launch reports on
/// its own, and serving is over once both have reported. Neither outcome
/// affects the other process.
#[derive(Debug)]
pub struct Supervisor {
    pub node: ManagedProcess,
    pub sidecar: ManagedProcess,
    pub node_result: Option<Result<(), LaunchError>>,
    pub sidecar_result: Option<Result<(), LaunchError>>,
}

/// Starts serving: the node with `node_args` (see [`serve_args`]) and the
/// sidecar without arguments.
pub fn serve(layout: &Layout, node_args: &Vec<String>) -> (r: Supervisor)
    ensures
        r.node.program@ == join_spec(layout.binaries_dir@, "polkadot-omni-node"@),
        given_or_default(layout, node_args, r.node.args),
        r.sidecar.program@ == join_spec(layout.binaries_dir@, "eth-rpc"@),
        r.sidecar.args@.len() == 0,
        r.sidecar.env@.len() == 1,
        r.sidecar.env@[0].name@ == "RUST_LOG"@,
        r.sidecar.env@[0].value@ == "debug"@,
        r.node_result is None,
        r.sidecar_result is None,
{
    let args = serve_args(layout, node_args);
    let none: Vec<String> = Vec::new();
    let node = run(layout, &args);
    let sidecar = run_eth(layout, &none);
    assert(strings_view(sidecar.args@).len() == 0);
    Supervisor { node, sidecar, node_result: None, sidecar_result: None }
}

/// The node's arguments are those given, or the default of [`serve_args`].
pub open spec fn given_or_default(layout: &Layout, given: &Vec<String>, args: Vec<String>) -> bool {
    &&& given@.len() > 0 ==> strings_view(args@) == strings_view(given@)
    &&& given@.len() == 0 ==> strings_view(args@) == seq![
        "--chain"@,
        join_spec(layout.chain_specs_dir@, "chain_spec.json"@),
    ]
}

/// Records the run of `role` as observed; a role's first report is the one kept.
pub open spec fn report_spec(
    node: Option<Result<(), LaunchError>>,
    sidecar: Option<Result<(), LaunchError>>,
    role: Role,
    obs: Observation,
) -> (Option<Result<(), LaunchError>>, Option<Result<(), LaunchError>>) {
    match role {
        Role::Node => (if node is None { Some(launch_spec(role, obs)) } else { node }, sidecar),
        Role::Sidecar => (node, if sidecar is None { Some(launch_spec(role, obs)) } else { sidecar }),
    }
}

impl Supervisor {
    /// Records that the process of `role` returned, as observed.
    pub fn report(&mut self, role: Role, obs: Observation)
        ensures
            final(self).node == old(self).node,
            final(self).sidecar == old(self).sidecar,
            (final(self).node_result, final(self).sidecar_result)
                == report_spec(old(self).node_result, old(self).sidecar_result, role, obs),
    {
        match role {
            Role::Node => {
                if self.node_result.is_none() {
                    self.node_result = Some(launch_result(Role::Node, obs));
                }
            },
            Role::Sidecar => {
                if self.sidecar_result.is_none() {
                    self.sidecar_result = Some(launch_result(Role::Sidecar, obs));
                }
            },
        }
    }

    /// Serving is over: both processes have returned.
    pub fn is_done(&self) -> (r: bool)
        ensures
            r == (self.node_result is Some && self.sidecar_result is Some),
    {
        self.node_result.is_some() && self.sidecar_result.is_some()
    }
}

/// Serving completes only once both processes have returned, in whichever
/// order they do: after one report it is not over, after one of each it is.
/// There is no cross-cancellation: each process's recorded outcome is what its
/// own run gave, whatever the other's was.
pub proof fn lemma_supervisor_joins_both(first: Role, obs_first: Observation, obs_second: Observation)
    ensures
        ({
            let second = match first { Role::Node => Role::Sidecar, Role::Sidecar => Role::Node };
            let (n1, s1) = report_spec(None, None, first, obs_first);
            let (n2, s2) = report_spec(n1, s1, second, obs_second);
            let node_obs = match first { Role::Node => obs_first, Role::Sidecar => obs_second };
            let sidecar_obs = match first { Role::Node => obs_second, Role::Sidecar => obs_first };
            &&& !(n1 is Some && s1 is Some)
            &&& n2 is Some && s2 is Some
            &&& n2 == Some(launch_spec(Role::Node, node_obs))
            &&& s2 == Some(launch_spec(Role::Sidecar, sidecar_obs))
        }),
{
}

} // verus!
