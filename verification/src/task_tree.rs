//! Statuses of task trees: the status a root shows, rolled up from the
//! statuses of its descendants.
use vstd::prelude::*;

use crate::task_enum::TaskStatus;

verus! {

/// The status rolled up from the flags of a root's descendant subtree:
/// any active descendant wins ("running"); failures that are all terminal
/// kills with nothing done give "killed"; failures beside successes give
/// "partial_success"; other failures give "failed"; only successes give
/// "completed"; an empty subtree gives "pending".
pub open spec fn derived_status(
    has_active: bool,
    has_failed: bool,
    has_completed: bool,
    has_killed_terminal: bool,
) -> Seq<char> {
    if has_active {
        "running"@
    } else if has_failed && !has_completed && has_killed_terminal == has_failed {
        "killed"@
    } else if has_failed && has_completed {
        "partial_success"@
    } else if has_failed {
        "failed"@
    } else if has_completed {
        "completed"@
    } else {
        "pending"@
    }
}

/// Maps the descendant-status flags to a user-facing derived status string.
pub fn derived_status_from_flags(
    has_active: bool,
    has_failed: bool,
    has_completed: bool,
    has_killed_terminal: bool,
) -> (r: &'static str)
    ensures
        r@ == derived_status(has_active, has_failed, has_completed, has_killed_terminal),
{
    if has_active {
        "running"
    } else if has_failed && !has_completed && has_killed_terminal == has_failed {
        "killed"
    } else if has_failed && has_completed {
        "partial_success"
    } else if has_failed {
        "failed"
    } else if has_completed {
        "completed"
    } else {
        "pending"
    }
}

/// The user-facing label of a task status.
pub open spec fn label_of(s: TaskStatus) -> Seq<char> {
    match s {
        TaskStatus::Pending => "pending"@,
        TaskStatus::Queued => "pending"@,
        TaskStatus::Running => "running"@,
        TaskStatus::Done => "completed"@,
        TaskStatus::Failed => "failed"@,
        TaskStatus::Killed => "killed"@,
        TaskStatus::Dead => "dead"@,
    }
}

/// Maps a task status to its user-friendly label.
pub fn status_label(status: &TaskStatus) -> (r: &'static str)
    ensures
        r@ == label_of(*status),
{
    match status {
        TaskStatus::Pending => "pending",
        TaskStatus::Queued => "pending",
        TaskStatus::Running => "running",
        TaskStatus::Done => "completed",
        TaskStatus::Failed => "failed",
        TaskStatus::Killed => "killed",
        TaskStatus::Dead => "dead",
    }
}

/// The status a root task shows: a subtree whose failures are all terminal
/// kills, with nothing active and nothing done, shows "killed" whatever the
/// root's own status; otherwise the root's own (mapped) status wins until
/// it is "completed", after which the descendants' rollup shows, or
/// "completed" when there are no descendants.
pub open spec fn effective_status(
    root_mapped: Seq<char>,
    has_active: bool,
    has_failed: bool,
    has_completed: bool,
    has_killed_terminal: bool,
) -> Seq<char> {
    let has_descendants = has_active || has_failed || has_completed;
    let subtree_dead_terminal = !has_active && has_failed && !has_completed && has_killed_terminal
        == has_failed;
    if subtree_dead_terminal {
        "killed"@
    } else if root_mapped != "completed"@ {
        root_mapped
    } else if has_descendants {
        derived_status(has_active, has_failed, has_completed, has_killed_terminal)
    } else {
        "completed"@
    }
}

/// The status shown for a root task whose own status maps to `root_mapped`.
pub fn effective_root_status(
    root_mapped: &'static str,
    has_active: bool,
    has_failed: bool,
    has_completed: bool,
    has_killed_terminal: bool,
) -> (r: &'static str)
    ensures
        r@ == effective_status(
            root_mapped@,
            has_active,
            has_failed,
            has_completed,
            has_killed_terminal,
        ),
{
    let has_descendants = has_active || has_failed || has_completed;
    let subtree_dead_terminal = !has_active && has_failed && !has_completed && has_killed_terminal
        == has_failed;
    if subtree_dead_terminal {
        "killed"
    } else if !crate::text::str_eq(root_mapped, "completed") {
        root_mapped
    } else if has_descendants {
        derived_status_from_flags(has_active, has_failed, has_completed, has_killed_terminal)
    } else {
        "completed"
    }
}

/// A root whose own status is not yet "completed" shows its own status,
/// unless its whole subtree is definitively killed.
pub proof fn law_root_status_wins_until_completed(
    root_mapped: Seq<char>,
    has_active: bool,
    has_failed: bool,
    has_completed: bool,
    has_killed_terminal: bool,
)
    requires
        root_mapped != "completed"@,
        has_active || !has_failed || has_completed || has_killed_terminal != has_failed,
    ensures
        effective_status(root_mapped, has_active, has_failed, has_completed, has_killed_terminal)
            == root_mapped,
{
}

/// Any active descendant makes the rollup "running".
pub proof fn law_active_descendant_means_running(
    has_failed: bool,
    has_completed: bool,
    has_killed_terminal: bool,
)
    ensures
        derived_status(true, has_failed, has_completed, has_killed_terminal) == "running"@,
{
}


// ---------------------------------------------------------------------------
// Task trees
// ---------------------------------------------------------------------------

/// One parent-child link between two tasks.
#[derive(Debug)]
pub struct TaskDependency {
    pub parent_job_id: String,
    pub child_job_id: String,
}

/// A node in the task tree: the link to the task, and the task's own
/// children in the order they were created.
#[derive(Debug)]
pub struct TaskTreeNode {
    pub dep: TaskDependency,
    pub children: Vec<TaskTreeNode>,
}

/// One task of a flattened tree: its ID, the ID of its direct parent, and
/// the ID of the tree's root.
#[derive(Debug)]
pub struct FlatTask {
    pub id: String,
    pub parent_job_id: String,
    pub root_job_id: String,
}

/// The tasks below `nodes`, depth first and each before its children, as
/// pairs of a task's ID and its parent's ID; `parent` is the parent of the
/// nodes themselves.
pub open spec fn flatten_nodes(nodes: Seq<TaskTreeNode>, parent: Seq<char>) -> Seq<
    (Seq<char>, Seq<char>),
>
    decreases nodes,
{
    if nodes.len() == 0 {
        Seq::empty()
    } else {
        flatten_nodes(nodes.subrange(0, nodes.len() - 1), parent) + flatten_node(
            nodes[nodes.len() - 1],
            parent,
        )
    }
}

/// A task and, after it, the tasks below it.
pub open spec fn flatten_node(node: TaskTreeNode, parent: Seq<char>) -> Seq<(Seq<char>, Seq<char>)>
    decreases node,
{
    seq![(node.dep.child_job_id@, parent)] + flatten_nodes(
        node.children@,
        node.dep.child_job_id@,
    )
}

/// Whether `r` lists the pairs `s`, each under the root `root`.
pub open spec fn flat_matches(r: Seq<FlatTask>, s: Seq<(Seq<char>, Seq<char>)>, root: Seq<char>) -> bool {
    r.len() == s.len() && forall|i: int|
        0 <= i < s.len() ==> (#[trigger] r[i]).id@ == s[i].0 && r[i].parent_job_id@ == s[i].1
            && r[i].root_job_id@ == root
}

fn flatten_into(nodes: &Vec<TaskTreeNode>, parent_id: &str, root_id: &str, out: &mut Vec<FlatTask>)
    ensures
        final(out)@.len() == old(out)@.len() + flatten_nodes(nodes@, parent_id@).len(),
        forall|i: int| 0 <= i < old(out)@.len() ==> #[trigger] final(out)@[i] == old(out)@[i],
        flat_matches(
            final(out)@.subrange(old(out)@.len() as int, final(out)@.len() as int),
            flatten_nodes(nodes@, parent_id@),
            root_id@,
        ),
    decreases nodes,
{
    let ghost start = out@.len();
    let mut i: usize = 0;
    while i < nodes.len()
        invariant
            i <= nodes.len(),
            start == old(out)@.len(),
            out@.len() == start + flatten_nodes(nodes@.subrange(0, i as int), parent_id@).len(),
            forall|k: int| 0 <= k < start ==> #[trigger] out@[k] == old(out)@[k],
            flat_matches(
                out@.subrange(start as int, out@.len() as int),
                flatten_nodes(nodes@.subrange(0, i as int), parent_id@),
                root_id@,
            ),
        decreases nodes.len() - i,
    {
        let ghost before = out@;
        let ghost prefix = flatten_nodes(nodes@.subrange(0, i as int), parent_id@);
        let node = &nodes[i];
        let id = node.dep.child_job_id.clone();
        out.push(FlatTask {
            id: id,
            parent_job_id: crate::text::owned(parent_id),
            root_job_id: crate::text::owned(root_id),
        });
        let ghost mid = out@;
        proof {
            assert(decreases_to!(nodes => nodes@));
            assert(decreases_to!(nodes@ => nodes@[i as int]));
            assert(decreases_to!(nodes@[i as int] => nodes@[i as int].children));
        }
        flatten_into(&node.children, node.dep.child_job_id.as_str(), root_id, out);
        proof {
            let sub = nodes@.subrange(0, i as int + 1);
            assert(sub.subrange(0, sub.len() - 1) =~= nodes@.subrange(0, i as int));
            assert(sub[sub.len() - 1] == nodes@[i as int]);
            let whole = flatten_nodes(sub, parent_id@);
            let rest = flatten_nodes(node.children@, node.dep.child_job_id@);
            assert(whole == prefix + flatten_node(nodes@[i as int], parent_id@));
            assert(flatten_node(nodes@[i as int], parent_id@) == seq![(node.dep.child_job_id@, parent_id@)] + rest);
            assert(whole =~= prefix + seq![(node.dep.child_job_id@, parent_id@)] + rest);
            let got = out@.subrange(start as int, out@.len() as int);
            assert forall|k: int| 0 <= k < whole.len() implies (#[trigger] got[k]).id@ == whole[k].0
                && got[k].parent_job_id@ == whole[k].1 && got[k].root_job_id@ == root_id@ by {
                if k < prefix.len() {
                    assert(got[k] == before[start + k]);
                    assert(before.subrange(start as int, before.len() as int)[k] == before[start + k]);
                } else if k == prefix.len() {
                    assert(got[k] == mid[start + k]);
                } else {
                    let j = k - prefix.len() - 1;
                    assert(got[k] == out@[mid.len() + j]);
                    assert(out@.subrange(mid.len() as int, out@.len() as int)[j] == out@[mid.len() + j]);
                }
            }
        }
        i += 1;
    }
    assert(nodes@.subrange(0, nodes@.len() as int) =~= nodes@);
}

/// The tasks below `nodes`, depth first with each task before its own
/// children, each with the ID of its direct parent (`parent_id` for the
/// nodes themselves) and the tree's root `root_id`.
pub fn flatten_tree(nodes: &Vec<TaskTreeNode>, parent_id: &str, root_id: &str) -> (r: Vec<FlatTask>)
    ensures
        flat_matches(r@, flatten_nodes(nodes@, parent_id@), root_id@),
{
    let mut out: Vec<FlatTask> = Vec::new();
    flatten_into(nodes, parent_id, root_id, &mut out);
    assert(out@.subrange(0, out@.len() as int) =~= out@);
    out
}

/// The number of tasks in a forest of task trees.
pub open spec fn forest_size(nodes: Seq<TaskTreeNode>) -> nat
    decreases nodes,
{
    if nodes.len() == 0 {
        0
    } else {
        forest_size(nodes.subrange(0, nodes.len() - 1)) + node_size(nodes[nodes.len() - 1])
    }
}

/// The number of tasks in a task tree: the task and those below it.
pub open spec fn node_size(node: TaskTreeNode) -> nat
    decreases node,
{
    1 + forest_size(node.children@)
}

/// Flattening lists each task below the root once: as many entries as the
/// trees hold tasks.
pub proof fn law_flatten_lists_every_task(nodes: Seq<TaskTreeNode>, parent: Seq<char>)
    ensures
        flatten_nodes(nodes, parent).len() == forest_size(nodes),
    decreases nodes,
{
    if nodes.len() > 0 {
        law_flatten_lists_every_task(nodes.subrange(0, nodes.len() - 1), parent);
        lemma_flatten_node_size(nodes[nodes.len() - 1], parent);
    }
}

proof fn lemma_flatten_node_size(node: TaskTreeNode, parent: Seq<char>)
    ensures
        flatten_node(node, parent).len() == node_size(node),
    decreases node,
{
    assert(decreases_to!(node => node.children));
    law_flatten_lists_every_task(node.children@, node.dep.child_job_id@);
}

} // verus!
