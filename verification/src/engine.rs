//! The convergence engine: recursive resolve-and-converge over a tree of
//! goals, run against an explicit model of the external world.
//!
//! A [`DepTree`] names a goal and carries its ordered hard preconditions
//! (`reqs_to_met`: processed before the goal's own status is even probed)
//! and soft preconditions (`reqs_to_meet`: converged, recursively, before the
//! goal's own convergence action is attempted). A [`World`] records which
//! goals hold and how each goal's probe and action behave, and accumulates
//! the ordered trace of attempted convergence actions, so that the engine's
//! fail-fast, ordered, act-at-most-once behaviour is stated exactly.

use vstd::prelude::*;

verus! {

/// A goal with its ordered hard and soft preconditions.
pub struct DepTree {
    pub goal: usize,
    pub reqs_to_met: Vec<DepTree>,
    pub reqs_to_meet: Vec<DepTree>,
}

/// How one `process` call on a tree ended.
pub enum Outcome {
    /// The goal was made to hold (or already held).
    Success,
    /// A status probe failed before an answer came back.
    ProbeFailed,
    /// A convergence action could not be run.
    ActFailed,
    /// A convergence action ran, yet the goal's probe still reports unmet.
    UnmetAfterMeet,
}

/// External state and behaviour, per goal: whether the goal holds, whether
/// its probe or action fails, and whether its action actually establishes it;
/// plus the ordered trace of attempted convergence actions.
pub struct World {
    pub held: Vec<bool>,
    pub probe_fails: Vec<bool>,
    pub act_fails: Vec<bool>,
    pub act_establishes: Vec<bool>,
    pub trace: Vec<usize>,
}

/// The per-goal behaviour flags of a world, which processing never changes.
pub struct Flags {
    pub probe_fails: Seq<bool>,
    pub act_fails: Seq<bool>,
    pub act_establishes: Seq<bool>,
}

/// The spec-level result of processing: the goals held afterwards, the
/// ordered convergence actions attempted, and the outcome.
pub struct Step {
    pub held: Seq<bool>,
    pub trace: Seq<usize>,
    pub outcome: Outcome,
}

impl World {
    pub open spec fn flags(self) -> Flags {
        Flags {
            probe_fails: self.probe_fails@,
            act_fails: self.act_fails@,
            act_establishes: self.act_establishes@,
        }
    }

    pub open spec fn wf(self) -> bool {
        &&& self.probe_fails@.len() == self.held@.len()
        &&& self.act_fails@.len() == self.held@.len()
        &&& self.act_establishes@.len() == self.held@.len()
    }
}

/// Every goal in the tree is a valid index into a world of `n` goals.
pub open spec fn wf_tree(t: DepTree, n: nat) -> bool
    decreases t,
{
    &&& t.goal < n
    &&& (forall|i: int|
        0 <= i < t.reqs_to_met@.len() ==> wf_tree(#[trigger] t.reqs_to_met@[i], n))
    &&& (forall|i: int|
        0 <= i < t.reqs_to_meet@.len() ==> wf_tree(#[trigger] t.reqs_to_meet@[i], n))
}

/// What processing one tree does: hard preconditions first (fail-fast, in
/// order), then the goal's own probe; an early return when it already holds;
/// otherwise the soft preconditions (fail-fast, in order), the one attempt at
/// the goal's own action, and the re-probe.
pub open spec fn sp_node(t: DepTree, f: Flags, held: Seq<bool>) -> Step
    decreases t, 1int,
{
    let pre = sp_list(t.reqs_to_met@, 0, f, held);
    if !(pre.outcome is Success) {
        pre
    } else if f.probe_fails[t.goal as int] {
        Step { held: pre.held, trace: pre.trace, outcome: Outcome::ProbeFailed }
    } else if pre.held[t.goal as int] {
        Step { held: pre.held, trace: pre.trace, outcome: Outcome::Success }
    } else {
        let soft = sp_list(t.reqs_to_meet@, 0, f, pre.held);
        if !(soft.outcome is Success) {
            Step { held: soft.held, trace: pre.trace + soft.trace, outcome: soft.outcome }
        } else {
            let acted = pre.trace + soft.trace + seq![t.goal];
            if f.act_fails[t.goal as int] {
                Step { held: soft.held, trace: acted, outcome: Outcome::ActFailed }
            } else {
                let after = if f.act_establishes[t.goal as int] {
                    soft.held.update(t.goal as int, true)
                } else {
                    soft.held
                };
                if after[t.goal as int] {
                    Step { held: after, trace: acted, outcome: Outcome::Success }
                } else {
                    Step { held: after, trace: acted, outcome: Outcome::UnmetAfterMeet }
                }
            }
        }
    }
}

/// Processing a list of trees from index `i` on, stopping at the first
/// failure.
pub open spec fn sp_list(ts: Seq<DepTree>, i: int, f: Flags, held: Seq<bool>) -> Step
    decreases ts, ts.len() - i,
{
    if i < 0 || i >= ts.len() {
        Step { held, trace: Seq::empty(), outcome: Outcome::Success }
    } else {
        let first = sp_node(ts[i], f, held);
        if !(first.outcome is Success) {
            first
        } else {
            let rest = sp_list(ts, i + 1, f, first.held);
            Step { held: rest.held, trace: first.trace + rest.trace, outcome: rest.outcome }
        }
    }
}

/// Converge on the tree's goal against the world: the engine's entry
/// point. Resolution is [`sp_node`]'s recursion — hard preconditions
/// first, the goal's own probe, an early success when it already holds,
/// then the soft preconditions, the one convergence action and the
/// re-probe — and the contract fixes the final state, the appended action
/// trace and the outcome exactly.
pub fn process(t: &DepTree, w: &mut World) -> (r: Outcome)
    requires
        old(w).wf(),
        wf_tree(*t, old(w).held@.len() as nat),
    ensures
        final(w).wf(),
        final(w).flags() == old(w).flags(),
        ({
            let s = sp_node(*t, old(w).flags(), old(w).held@);
            &&& final(w).held@ == s.held
            &&& final(w).trace@ == old(w).trace@ + s.trace
            &&& r == s.outcome
        }),
{
    process_node(t, w)
}

/// The recursion behind [`process`]: one tree node, exactly [`sp_node`].
pub fn process_node(t: &DepTree, w: &mut World) -> (r: Outcome)
    requires
        old(w).wf(),
        wf_tree(*t, old(w).held@.len() as nat),
    ensures
        final(w).wf(),
        final(w).flags() == old(w).flags(),
        ({
            let s = sp_node(*t, old(w).flags(), old(w).held@);
            &&& final(w).held@ == s.held
            &&& final(w).trace@ == old(w).trace@ + s.trace
            &&& r == s.outcome
        }),
    decreases *t, 1int,
{
    let pre = process_list(&t.reqs_to_met, 0, w);
    if !matches!(pre, Outcome::Success) {
        return pre;
    }
    if w.probe_fails[t.goal] {
        return Outcome::ProbeFailed;
    }
    if w.held[t.goal] {
        return Outcome::Success;
    }
    let soft = process_list(&t.reqs_to_meet, 0, w);
    if !matches!(soft, Outcome::Success) {
        return soft;
    }
    w.trace.push(t.goal);
    if w.act_fails[t.goal] {
        return Outcome::ActFailed;
    }
    if w.act_establishes[t.goal] {
        w.held[t.goal] = true;
    }
    if w.held[t.goal] {
        Outcome::Success
    } else {
        Outcome::UnmetAfterMeet
    }
}

/// Converge on each tree of the list from index `i` on, stopping at the
/// first failure: the executable form of [`sp_list`].
pub fn process_list(ts: &Vec<DepTree>, i: usize, w: &mut World) -> (r: Outcome)
    requires
        old(w).wf(),
        i <= ts@.len(),
        forall|j: int| i <= j < ts@.len() ==> wf_tree(#[trigger] ts@[j], old(w).held@.len() as nat),
    ensures
        final(w).wf(),
        final(w).flags() == old(w).flags(),
        ({
            let s = sp_list(ts@, i as int, old(w).flags(), old(w).held@);
            &&& final(w).held@ == s.held
            &&& final(w).trace@ == old(w).trace@ + s.trace
            &&& r == s.outcome
        }),
    decreases ts@, ts@.len() - i,
{
    if i == ts.len() {
        assert(w.trace@ == old(w).trace@ + Seq::<usize>::empty());
        return Outcome::Success;
    }
    let first = process_node(&ts[i], w);
    if !matches!(first, Outcome::Success) {
        return first;
    }
    let rest = process_list(ts, i + 1, w);
    rest
}

/// `h2` holds every goal that `h1` holds (and they describe the same goals).
pub open spec fn extends(h2: Seq<bool>, h1: Seq<bool>) -> bool {
    &&& h2.len() == h1.len()
    &&& forall|i: int| 0 <= i < h1.len() && #[trigger] h1[i] ==> h2[i]
}

pub proof fn lemma_extends_trans(a: Seq<bool>, b: Seq<bool>, c: Seq<bool>)
    requires
        extends(a, b),
        extends(b, c),
    ensures
        extends(a, c),
{
}

/// Processing only ever establishes goals, never unsettles them; and a
/// successful run leaves the tree's own goal holding.
pub proof fn lemma_sp_node_frame(t: DepTree, f: Flags, held: Seq<bool>)
    requires
        wf_tree(t, held.len() as nat),
    ensures
        ({
            let s = sp_node(t, f, held);
            &&& s.held.len() == held.len()
            &&& extends(s.held, held)
            &&& (s.outcome is Success ==> s.held[t.goal as int])
        }),
    decreases t, 1int,
{
    lemma_sp_list_frame(t.reqs_to_met@, 0, f, held);
    let pre = sp_list(t.reqs_to_met@, 0, f, held);
    if pre.outcome is Success && !f.probe_fails[t.goal as int] && !pre.held[t.goal as int] {
        lemma_sp_list_frame(t.reqs_to_meet@, 0, f, pre.held);
        let soft = sp_list(t.reqs_to_meet@, 0, f, pre.held);
        let s = sp_node(t, f, held);
        if soft.outcome is Success && !f.act_fails[t.goal as int] {
            assert(extends(s.held, soft.held));
        }
        lemma_extends_trans(s.held, soft.held, pre.held);
        lemma_extends_trans(s.held, pre.held, held);
    }
}

/// The list form of [`lemma_sp_node_frame`].
pub proof fn lemma_sp_list_frame(ts: Seq<DepTree>, i: int, f: Flags, held: Seq<bool>)
    requires
        forall|j: int| 0 <= j < ts.len() ==> wf_tree(#[trigger] ts[j], held.len() as nat),
    ensures
        ({
            let s = sp_list(ts, i, f, held);
            &&& s.held.len() == held.len()
            &&& extends(s.held, held)
        }),
    decreases ts, ts.len() - i,
{
    if 0 <= i < ts.len() {
        lemma_sp_node_frame(ts[i], f, held);
        let first = sp_node(ts[i], f, held);
        if first.outcome is Success {
            lemma_sp_list_frame(ts, i + 1, f, first.held);
            lemma_extends_trans(sp_list(ts, i + 1, f, first.held).held, first.held, held);
        }
    }
}

/// After a successful run, processing the same tree against any world state
/// that extends the reached one probes, finds everything met, attempts no
/// convergence action, and changes nothing.
pub proof fn lemma_sp_node_stable(t: DepTree, f: Flags, held: Seq<bool>, h: Seq<bool>)
    requires
        wf_tree(t, held.len() as nat),
        sp_node(t, f, held).outcome is Success,
        extends(h, sp_node(t, f, held).held),
    ensures
        ({
            let s2 = sp_node(t, f, h);
            &&& s2.held == h
            &&& s2.trace == Seq::<usize>::empty()
            &&& s2.outcome is Success
        }),
    decreases t, 1int,
{
    let s = sp_node(t, f, held);
    let pre = sp_list(t.reqs_to_met@, 0, f, held);
    lemma_sp_list_frame(t.reqs_to_met@, 0, f, held);
    lemma_sp_node_frame(t, f, held);
    assert(pre.outcome is Success);
    assert(!f.probe_fails[t.goal as int]);
    if pre.held[t.goal as int] {
        assert(s.held == pre.held);
    } else {
        let soft = sp_list(t.reqs_to_meet@, 0, f, pre.held);
        lemma_sp_list_frame(t.reqs_to_meet@, 0, f, pre.held);
        assert(soft.outcome is Success);
        assert(!f.act_fails[t.goal as int]);
        assert(extends(s.held, soft.held));
        lemma_extends_trans(s.held, soft.held, pre.held);
    }
    assert(extends(s.held, pre.held));
    lemma_extends_trans(h, s.held, pre.held);
    lemma_sp_list_stable(t.reqs_to_met@, 0, f, held, h);
    assert(h[t.goal as int]);
}

/// The list form of [`lemma_sp_node_stable`].
pub proof fn lemma_sp_list_stable(ts: Seq<DepTree>, i: int, f: Flags, held: Seq<bool>, h: Seq<bool>)
    requires
        forall|j: int| 0 <= j < ts.len() ==> wf_tree(#[trigger] ts[j], held.len() as nat),
        sp_list(ts, i, f, held).outcome is Success,
        extends(h, sp_list(ts, i, f, held).held),
    ensures
        ({
            let s2 = sp_list(ts, i, f, h);
            &&& s2.held == h
            &&& s2.trace == Seq::<usize>::empty()
            &&& s2.outcome is Success
        }),
    decreases ts, ts.len() - i,
{
    if 0 <= i < ts.len() {
        let first = sp_node(ts[i], f, held);
        let rest = sp_list(ts, i + 1, f, first.held);
        lemma_sp_node_frame(ts[i], f, held);
        assert(first.outcome is Success);
        lemma_sp_list_frame(ts, i + 1, f, first.held);
        assert(extends(h, rest.held));
        lemma_extends_trans(h, rest.held, first.held);
        lemma_sp_node_stable(ts[i], f, held, h);
        lemma_sp_list_stable(ts, i + 1, f, first.held, h);
        assert(Seq::<usize>::empty() + Seq::<usize>::empty() =~= Seq::<usize>::empty());
    }
}

/// Idempotence law: when a convergence run succeeds, running the engine on
/// the same tree again, with no external state change in between, attempts
/// zero convergence actions, succeeds again, and leaves the world unchanged.
pub proof fn lemma_process_idempotent(t: DepTree, f: Flags, held: Seq<bool>)
    requires
        wf_tree(t, held.len() as nat),
        sp_node(t, f, held).outcome is Success,
    ensures
        ({
            let s = sp_node(t, f, held);
            let s2 = sp_node(t, f, s.held);
            &&& s2.outcome is Success
            &&& s2.trace == Seq::<usize>::empty()
            &&& s2.held == s.held
        }),
{
    lemma_sp_node_frame(t, f, held);
    lemma_sp_node_stable(t, f, held, sp_node(t, f, held).held);
}

/// What one run on a leaf goal (no preconditions) that is not yet
/// established does: the one convergence action is attempted, and the
/// outcome follows the action's behaviour.
pub proof fn lemma_sp_leaf_unmet(t: DepTree, f: Flags, held: Seq<bool>)
    requires
        wf_tree(t, held.len() as nat),
        t.reqs_to_met@.len() == 0,
        t.reqs_to_meet@.len() == 0,
        !f.probe_fails[t.goal as int],
        !held[t.goal as int],
    ensures
        ({
            let s = sp_node(t, f, held);
            &&& s.trace == seq![t.goal]
            &&& (if f.act_fails[t.goal as int] {
                s.held == held && s.outcome is ActFailed
            } else if f.act_establishes[t.goal as int] {
                s.held == held.update(t.goal as int, true) && s.outcome is Success
            } else {
                s.held == held && s.outcome is UnmetAfterMeet
            })
        }),
{
    assert(Seq::<usize>::empty() + Seq::<usize>::empty() + seq![t.goal] =~= seq![t.goal]);
}

/// Whether the goal `g` is named anywhere in the tree.
pub open spec fn node_mentions(t: DepTree, g: usize) -> bool
    decreases t, 1int,
{
    ||| t.goal == g
    ||| list_mentions(t.reqs_to_met@, 0, g)
    ||| list_mentions(t.reqs_to_meet@, 0, g)
}

/// Whether the goal `g` is named in any tree of the list from index `i` on.
pub open spec fn list_mentions(ts: Seq<DepTree>, i: int, g: usize) -> bool
    decreases ts, ts.len() - i,
{
    if i < 0 || i >= ts.len() {
        false
    } else {
        node_mentions(ts[i], g) || list_mentions(ts, i + 1, g)
    }
}

/// Only goals named in the tree are ever acted on.
pub proof fn lemma_node_trace_mentioned(t: DepTree, f: Flags, held: Seq<bool>, g: usize)
    requires
        !node_mentions(t, g),
    ensures
        !sp_node(t, f, held).trace.contains(g),
    decreases t, 1int,
{
    lemma_list_trace_mentioned(t.reqs_to_met@, 0, f, held, g);
    let pre = sp_list(t.reqs_to_met@, 0, f, held);
    if pre.outcome is Success && !f.probe_fails[t.goal as int] && !pre.held[t.goal as int] {
        lemma_list_trace_mentioned(t.reqs_to_meet@, 0, f, pre.held, g);
        let soft = sp_list(t.reqs_to_meet@, 0, f, pre.held);
        if soft.outcome is Success {
            let s = sp_node(t, f, held);
            assert forall|a: int| 0 <= a < s.trace.len() implies s.trace[a] != g by {
                if a < pre.trace.len() {
                    assert(pre.trace[a] == s.trace[a]);
                } else if a < pre.trace.len() + soft.trace.len() {
                    assert(soft.trace[a - pre.trace.len()] == s.trace[a]);
                }
            }
        }
    }
}

/// The list form of [`lemma_node_trace_mentioned`].
pub proof fn lemma_list_trace_mentioned(
    ts: Seq<DepTree>,
    i: int,
    f: Flags,
    held: Seq<bool>,
    g: usize,
)
    requires
        !list_mentions(ts, i, g),
    ensures
        !sp_list(ts, i, f, held).trace.contains(g),
    decreases ts, ts.len() - i,
{
    if 0 <= i < ts.len() {
        lemma_node_trace_mentioned(ts[i], f, held, g);
        let first = sp_node(ts[i], f, held);
        if first.outcome is Success {
            lemma_list_trace_mentioned(ts, i + 1, f, first.held, g);
            let rest = sp_list(ts, i + 1, f, first.held);
            let s = sp_list(ts, i, f, held);
            assert forall|a: int| 0 <= a < s.trace.len() implies s.trace[a] != g by {
                if a < first.trace.len() {
                    assert(first.trace[a] == s.trace[a]);
                } else {
                    assert(rest.trace[a - first.trace.len()] == s.trace[a]);
                }
            }
        }
    }
}

/// Act-at-most-once law, for every tree whose preconditions do not name
/// the tree's own goal: one `process` run attempts the goal's own
/// convergence action at most once, and only when the goal's probe
/// answered (no probe failure) and found it unmet.
pub proof fn lemma_action_at_most_once(t: DepTree, f: Flags, held: Seq<bool>)
    requires
        !list_mentions(t.reqs_to_met@, 0, t.goal),
        !list_mentions(t.reqs_to_meet@, 0, t.goal),
    ensures
        ({
            let s = sp_node(t, f, held);
            &&& (forall|a: int, b: int|
                0 <= a < b < s.trace.len() && s.trace[a] == t.goal ==> s.trace[b] != t.goal)
            &&& (s.trace.contains(t.goal) ==> !f.probe_fails[t.goal as int] && !sp_list(
                t.reqs_to_met@,
                0,
                f,
                held,
            ).held[t.goal as int])
        }),
{
    let s = sp_node(t, f, held);
    let pre = sp_list(t.reqs_to_met@, 0, f, held);
    lemma_list_trace_mentioned(t.reqs_to_met@, 0, f, held, t.goal);
    if pre.outcome is Success && !f.probe_fails[t.goal as int] && !pre.held[t.goal as int] {
        lemma_list_trace_mentioned(t.reqs_to_meet@, 0, f, pre.held, t.goal);
        let soft = sp_list(t.reqs_to_meet@, 0, f, pre.held);
        if soft.outcome is Success {
            // the one attempt is the final trace entry
            assert forall|a: int, b: int|
                0 <= a < b < s.trace.len() && s.trace[a] == t.goal implies s.trace[b]
                != t.goal by {
                if a < pre.trace.len() {
                    assert(pre.trace[a] == s.trace[a]);
                } else if a < pre.trace.len() + soft.trace.len() {
                    assert(soft.trace[a - pre.trace.len()] == s.trace[a]);
                }
            }
        }
    }
}

/// Fail-fast law, for every tree: when the soft preconditions do not all
/// converge, the goal's own convergence action is never attempted — the
/// node adds nothing to the preconditions' traces, and their failure is
/// the node's outcome.
pub proof fn lemma_failed_soft_blocks_action(t: DepTree, f: Flags, held: Seq<bool>)
    requires
        sp_list(t.reqs_to_met@, 0, f, held).outcome is Success,
        !f.probe_fails[t.goal as int],
        !sp_list(t.reqs_to_met@, 0, f, held).held[t.goal as int],
        !(sp_list(t.reqs_to_meet@, 0, f, sp_list(t.reqs_to_met@, 0, f, held).held).outcome
            is Success),
    ensures
        ({
            let pre = sp_list(t.reqs_to_met@, 0, f, held);
            let soft = sp_list(t.reqs_to_meet@, 0, f, pre.held);
            let s = sp_node(t, f, held);
            &&& s.outcome == soft.outcome
            &&& s.trace == pre.trace + soft.trace
        }),
{
}

/// Retry law for a goal without preconditions: processing it twice in
/// immediate succession, with no external state change in between, ends
/// both calls with the same outcome — and when the first call succeeded,
/// the second attempts no convergence action.
pub proof fn lemma_leaf_retry_same_outcome(t: DepTree, f: Flags, held: Seq<bool>)
    requires
        wf_tree(t, held.len() as nat),
        t.reqs_to_met@.len() == 0,
        t.reqs_to_meet@.len() == 0,
    ensures
        ({
            let s = sp_node(t, f, held);
            let s2 = sp_node(t, f, s.held);
            &&& s2.outcome == s.outcome
            &&& (s.outcome is Success ==> s2.trace == Seq::<usize>::empty())
        }),
{
    let s = sp_node(t, f, held);
    if !f.probe_fails[t.goal as int] {
        if held[t.goal as int] {
            assert(s.held == held);
        } else {
            lemma_sp_leaf_unmet(t, f, held);
            if !f.act_fails[t.goal as int] && f.act_establishes[t.goal as int] {
                lemma_sp_node_frame(t, f, held);
                lemma_sp_node_stable(t, f, held, s.held);
            } else {
                assert(s.held == held);
                lemma_sp_leaf_unmet(t, f, s.held);
            }
        }
    }
}

/// Precondition-ordering law, for a goal (attachment) whose one soft
/// precondition is another goal (session creation) and with neither
/// established: the engine attempts creation first, and attempts attachment
/// only when the creation action ran and established its goal — never when
/// creation failed.
pub proof fn lemma_soft_precondition_runs_first(t: DepTree, f: Flags, held: Seq<bool>)
    requires
        wf_tree(t, held.len() as nat),
        t.reqs_to_met@.len() == 0,
        t.reqs_to_meet@.len() == 1,
        t.reqs_to_meet@[0].reqs_to_met@.len() == 0,
        t.reqs_to_meet@[0].reqs_to_meet@.len() == 0,
        t.goal != t.reqs_to_meet@[0].goal,
        !held[t.goal as int],
        !held[t.reqs_to_meet@[0].goal as int],
        !f.probe_fails[t.goal as int],
        !f.probe_fails[t.reqs_to_meet@[0].goal as int],
    ensures
        ({
            let create = t.reqs_to_meet@[0].goal;
            let s = sp_node(t, f, held);
            if !f.act_fails[create as int] && f.act_establishes[create as int] {
                s.trace == seq![create, t.goal]
            } else {
                s.trace == seq![create] && !(s.outcome is Success)
            }
        }),
{
    reveal_with_fuel(wf_tree, 2);
    let create = t.reqs_to_meet@[0].goal;
    let e = Seq::<usize>::empty();
    let pre = sp_list(t.reqs_to_met@, 0, f, held);
    assert(pre.held == held && pre.trace == e && pre.outcome is Success);
    let sub = sp_node(t.reqs_to_meet@[0], f, held);
    lemma_sp_leaf_unmet(t.reqs_to_meet@[0], f, held);
    let soft = sp_list(t.reqs_to_meet@, 0, f, held);
    if !f.act_fails[create as int] && f.act_establishes[create as int] {
        let after = held.update(create as int, true);
        assert(sub.held == after && sub.outcome is Success);
        let rest = sp_list(t.reqs_to_meet@, 1, f, after);
        assert(rest.held == after && rest.trace == e && rest.outcome is Success);
        assert(soft.trace =~= seq![create]);
        assert(soft.held == after && soft.outcome is Success);
        assert(t.goal < held.len());
        assert(create < held.len());
        assert((t.goal as int) != (create as int));
        assert(after[t.goal as int] == held[t.goal as int]);
        assert(!after[t.goal as int]);
        let s = sp_node(t, f, held);
        assert(s.trace =~= e + seq![create] + seq![t.goal]);
        assert(s.trace =~= seq![create, t.goal]);
    } else {
        assert(!(sub.outcome is Success));
        assert(soft == sub);
        let s = sp_node(t, f, held);
        assert(s.trace =~= e + seq![create]);
        assert(s.trace =~= seq![create]);
        assert(!(s.outcome is Success));
    }
}

} // verus!
