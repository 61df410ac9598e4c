//! The concrete external-state goals — a cloned repository, an existing
//! session, an attached session — with their dependency plans, their status
//! probes and the exact commands that converge them.
//!
//! Attachment's one soft precondition is session existence; the other two
//! resources have no preconditions.

use vstd::prelude::*;

use vstd::string::StringExecFns;

use crate::dep::Status;
use crate::engine::lemma_sp_leaf_unmet;
use crate::engine::sp_list;
use crate::engine::sp_node;
use crate::engine::wf_tree;
use crate::engine::DepTree;
use crate::engine::Outcome;
use crate::engine::World;
use crate::tmux::has_command;
use crate::tmux::new_session;
use crate::tmux::spec_attach_cmd;
use crate::tmux::spec_has_cmd;
use crate::tmux::spec_new_session_cmd;
use crate::tmux::SessionName;

verus! {

pub const GOAL_REPO_CLONED: usize = 0;

pub const GOAL_SESSION_EXISTS: usize = 1;

pub const GOAL_SESSION_ATTACHED: usize = 2;

/// The number of distinct goal kinds; worlds modelling these resources hold
/// at least this many goals.
pub const GOAL_COUNT: usize = 3;

/// A named external-state goal, built fresh from the user's selection and
/// discarded after one resolution pass.
pub enum Resource {
    /// A working copy of `url` exists at `path` (signalled by its
    /// version-control metadata directory).
    RepositoryCloned { url: String, path: String },
    /// The session manager knows a session of this name, rooted at `path`.
    SessionExists { name: SessionName, path: String },
    /// The current process is attached to the session of this name.
    SessionAttached { name: SessionName, path: String },
}

impl Resource {
    pub open spec fn spec_goal(self) -> usize {
        match self {
            Resource::RepositoryCloned { .. } => GOAL_REPO_CLONED,
            Resource::SessionExists { .. } => GOAL_SESSION_EXISTS,
            Resource::SessionAttached { .. } => GOAL_SESSION_ATTACHED,
        }
    }

    pub fn goal(&self) -> (g: usize)
        ensures
            g == self.spec_goal(),
    {
        match self {
            Resource::RepositoryCloned { .. } => GOAL_REPO_CLONED,
            Resource::SessionExists { .. } => GOAL_SESSION_EXISTS,
            Resource::SessionAttached { .. } => GOAL_SESSION_ATTACHED,
        }
    }

    /// The dependency tree that [`crate::engine::process_node`] resolves:
    /// attachment carries session existence as its one soft precondition,
    /// the other resources are leaves; no resource has hard preconditions.
    pub fn plan(&self) -> (t: DepTree)
        ensures
            spec_plan_shape(*self, t),
    {
        match self {
            Resource::SessionAttached { .. } => {
                let sub = DepTree {
                    goal: GOAL_SESSION_EXISTS,
                    reqs_to_met: Vec::new(),
                    reqs_to_meet: Vec::new(),
                };
                let mut soft: Vec<DepTree> = Vec::new();
                soft.push(sub);
                DepTree { goal: GOAL_SESSION_ATTACHED, reqs_to_met: Vec::new(), reqs_to_meet: soft }
            },
            _ => DepTree { goal: self.goal(), reqs_to_met: Vec::new(), reqs_to_meet: Vec::new() },
        }
    }
}

/// The shape of a resource's plan: a leaf for cloning and session creation;
/// for attachment, a tree whose one soft precondition is the
/// session-existence leaf.
pub open spec fn spec_plan_shape(r: Resource, t: DepTree) -> bool {
    &&& t.goal == r.spec_goal()
    &&& t.reqs_to_met@.len() == 0
    &&& (match r {
        Resource::SessionAttached { .. } => {
            &&& t.reqs_to_meet@.len() == 1
            &&& t.reqs_to_meet@[0].goal == GOAL_SESSION_EXISTS
            &&& t.reqs_to_meet@[0].reqs_to_met@.len() == 0
            &&& t.reqs_to_meet@[0].reqs_to_meet@.len() == 0
        },
        _ => t.reqs_to_meet@.len() == 0,
    })
}

/// What the clone command looks like.
pub open spec fn spec_clone_cmd(url: Seq<char>, path: Seq<char>, cmd: Seq<String>) -> bool {
    &&& cmd.len() == 4
    &&& cmd[0]@ == "git"@
    &&& cmd[1]@ == "clone"@
    &&& cmd[2]@ == url
    &&& cmd[3]@ == path
}

impl Resource {
    /// The one effectful command that converges this resource: clone the
    /// repository, create the detached session, or attach/switch (the
    /// subcommand depends on whether the caller is already inside the
    /// session manager).
    pub fn converge_command(&self, inside: bool) -> (cmd: Vec<String>)
        ensures
            match *self {
                Resource::RepositoryCloned { url, path } => spec_clone_cmd(url@, path@, cmd@),
                Resource::SessionExists { name, path } => spec_new_session_cmd(
                    name@,
                    path@,
                    cmd@,
                ),
                Resource::SessionAttached { name, .. } => spec_attach_cmd(name@, inside, cmd@),
            },
    {
        match self {
            Resource::RepositoryCloned { url, path } => {
                let mut cmd: Vec<String> = Vec::new();
                cmd.push("git".to_owned());
                cmd.push("clone".to_owned());
                cmd.push(url.clone());
                cmd.push(path.clone());
                cmd
            },
            Resource::SessionExists { name, path } => {
                let (_, cmd) = new_session(name, path.as_str());
                cmd
            },
            Resource::SessionAttached { name, .. } => crate::tmux::attach_or_switch(name, inside),
        }
    }
}

/// How a resource's status predicate is evaluated against the outside
/// world. Probes are pure and repeatable: evaluating one mutates nothing.
pub enum StatusProbe {
    /// The goal holds when this directory (the version-control metadata
    /// directory of the working copy) exists.
    MetadataDir(String),
    /// The goal holds when this command succeeds.
    CommandSucceeds(Vec<String>),
    /// The goal holds when, inside the session manager, this command's
    /// single-line output names this session. Outside the session manager
    /// the goal is unmet without running anything.
    ActiveSessionIs(Vec<String>, SessionName),
}

/// What the active-session query command looks like.
pub open spec fn spec_active_session_cmd(cmd: Seq<String>) -> bool {
    &&& cmd.len() == 4
    &&& cmd[0]@ == "tmux"@
    &&& cmd[1]@ == "display-message"@
    &&& cmd[2]@ == "-p"@
    &&& cmd[3]@ == "#S"@
}

impl Resource {
    /// The status probe of this resource's goal.
    pub fn status_probe(&self) -> (p: StatusProbe)
        ensures
            match *self {
                Resource::RepositoryCloned { path, .. } => p matches StatusProbe::MetadataDir(d)
                    && d@ == path@ + "/.git"@,
                Resource::SessionExists { name, .. } => p matches StatusProbe::CommandSucceeds(cmd)
                    && spec_has_cmd(name@, cmd@),
                Resource::SessionAttached { name, .. } => p matches StatusProbe::ActiveSessionIs(
                    cmd,
                    n,
                ) && spec_active_session_cmd(cmd@) && n@ == name@,
            },
    {
        match self {
            Resource::RepositoryCloned { path, .. } => {
                let mut d = path.clone();
                d.append("/.git");
                StatusProbe::MetadataDir(d)
            },
            Resource::SessionExists { name, .. } => StatusProbe::CommandSucceeds(
                has_command(name),
            ),
            Resource::SessionAttached { name, .. } => {
                let mut cmd: Vec<String> = Vec::new();
                cmd.push("tmux".to_owned());
                cmd.push("display-message".to_owned());
                cmd.push("-p".to_owned());
                cmd.push("#S".to_owned());
                StatusProbe::ActiveSessionIs(cmd, name.clone())
            },
        }
    }
}

/// The session-existence goal under a raw session name and working path:
/// the resource-level entry point for making a session exist.
pub struct Session {
    pub name: SessionName,
    pub path: String,
}

impl Session {
    /// Converge on "a session of this name exists" against the world
    /// model: an existing session triggers no action; a missing one gets
    /// exactly one creation action, and the outcome follows the re-probe
    /// (success when the creation established the session, the
    /// distinguished postcondition violation when it ran but did not).
    pub fn process(name: &str, path: &str, w: &mut World) -> (r: Outcome)
        requires
            old(w).wf(),
            GOAL_COUNT <= old(w).held@.len(),
        ensures
            final(w).wf(),
            final(w).flags() == old(w).flags(),
            old(w).probe_fails@[GOAL_SESSION_EXISTS as int] ==> r is ProbeFailed && final(w).held@
                == old(w).held@ && final(w).trace@ == old(w).trace@,
            (!old(w).probe_fails@[GOAL_SESSION_EXISTS as int] && old(w).held@[GOAL_SESSION_EXISTS as int])
                ==> r is Success && final(w).held@ == old(w).held@ && final(w).trace@ == old(
                w,
            ).trace@,
            (!old(w).probe_fails@[GOAL_SESSION_EXISTS as int] && !old(w).held@[GOAL_SESSION_EXISTS as int])
                ==> final(w).trace@ == old(w).trace@.push(GOAL_SESSION_EXISTS) && (if old(
                w,
            ).act_fails@[GOAL_SESSION_EXISTS as int] {
                r is ActFailed && final(w).held@ == old(w).held@
            } else if old(w).act_establishes@[GOAL_SESSION_EXISTS as int] {
                r is Success && final(w).held@ == old(w).held@.update(
                    GOAL_SESSION_EXISTS as int,
                    true,
                )
            } else {
                r is UnmetAfterMeet && final(w).held@ == old(w).held@
            }),
    {
        let goal = Session { name: SessionName::from(name), path: path.to_owned() };
        let resource = Resource::SessionExists { name: goal.name, path: goal.path };
        let plan = resource.plan();
        proof {
            assert(wf_tree(plan, old(w).held@.len() as nat));
        }
        let r = crate::engine::process(&plan, w);
        proof {
            let f = old(w).flags();
            let held = old(w).held@;
            let pre = sp_list(plan.reqs_to_met@, 0, f, held);
            assert(pre.held == held && pre.trace == Seq::<usize>::empty() && pre.outcome
                is Success);
            if !f.probe_fails[GOAL_SESSION_EXISTS as int] && !held[GOAL_SESSION_EXISTS as int] {
                lemma_sp_leaf_unmet(plan, f, held);
                assert(old(w).trace@ + seq![GOAL_SESSION_EXISTS] =~= old(w).trace@.push(
                    GOAL_SESSION_EXISTS,
                ));
            } else {
                assert(old(w).trace@ + sp_node(plan, f, held).trace =~= old(w).trace@);
            }
        }
        r
    }
}

/// The resource chain that turns a picker selection (a repository or
/// session name with its working path) into a live attached session:
/// the session must exist, then be attached — in that order, existence
/// being attachment's soft precondition.
pub fn selection_chain(name: &str, path: &str) -> (chain: Vec<Resource>)
    ensures
        chain@.len() == 2,
        (chain@[0] matches Resource::SessionExists { name: n, path: p } && n@
            == crate::tmux::spec_sanitize(name@) && p@ == path@),
        (chain@[1] matches Resource::SessionAttached { name: n, path: p } && n@
            == crate::tmux::spec_sanitize(name@) && p@ == path@),
{
    let mut chain: Vec<Resource> = Vec::new();
    chain.push(
        Resource::SessionExists {
            name: SessionName::from(name),
            path: path.to_owned(),
        },
    );
    chain.push(
        Resource::SessionAttached {
            name: SessionName::from(name),
            path: path.to_owned(),
        },
    );
    chain
}

/// The status that counts after attachment's convergence action ran: a clean
/// attach from outside the session manager is convergence (the nested client
/// has exited again by the time of the re-probe), every other resource goes
/// by the probe alone.
pub fn post_action_status(r: &Resource, inside: bool, probed: Status) -> (s: Status)
    ensures
        s is Met <==> (probed is Met || (r matches Resource::SessionAttached { .. } && !inside)),
{
    match r {
        Resource::SessionAttached { .. } => {
            if !inside {
                Status::Met
            } else {
                probed
            }
        },
        _ => probed,
    }
}

/// Evaluate the attachment status from the active-session answer: met
/// exactly when the caller runs inside the session manager and the active
/// session's name equals this one. Callers outside the session manager pass
/// `None` without querying anything.
pub fn attached_status(active: Option<&String>, name: &SessionName) -> (s: Status)
    ensures
        s is Met <==> (active matches Some(a) && a@ == name@),
{
    match active {
        Some(a) => {
            if name.matches(a) {
                Status::Met
            } else {
                Status::Unmet
            }
        },
        None => Status::Unmet,
    }
}

} // verus!
