//! Planning and recording of deletions.
//!
//! The orchestrator filters classified branches down to the eligible set,
//! decides whether a confirmation prompt is owed and whether an answer is
//! affirmative, plans the exact deletion commands the configured delete mode
//! implies, and aggregates per-command outcomes into a report. Classification
//! never deletes; deletion commands are issued only for eligible branches.

use crate::branches::{spec_eligible, Branch, MergeStatus};
use crate::options::{DeleteMode, Options};
use vstd::prelude::*;

verus! {

/// The scope of one deletion: the local branch, or its remote counterpart.
#[derive(Clone, Copy, Debug, PartialEq, Eq, Structural)]
pub enum Scope {
    Local,
    Remote,
}

/// How one attempted deletion ended.
#[derive(Clone, Debug, PartialEq, Eq)]
pub enum Outcome {
    /// The branch was deleted in this scope.
    Deleted,
    /// The deletion command failed, with the reason it reported.
    Failed(String),
}

/// One deletion to perform: a branch name and the scope to delete it in.
#[derive(Clone, Debug, PartialEq, Eq)]
pub struct DeletionCommand {
    pub branch_name: String,
    pub scope: Scope,
}

/// The recorded end of one attempted deletion.
#[derive(Clone, Debug, PartialEq, Eq)]
pub struct DeletionResult {
    pub branch_name: String,
    pub scope: Scope,
    pub outcome: Outcome,
}

/// Every deletion result of a run, in the order the commands were issued.
#[derive(Clone, Debug, PartialEq, Eq)]
pub struct Report {
    pub results: Vec<DeletionResult>,
}

impl Report {
    /// A report of no deletions at all.
    pub fn empty() -> (r: Report)
        ensures
            r.results@ == Seq::<DeletionResult>::empty(),
    {
        Report { results: Vec::new() }
    }

    /// Appends one deletion result.
    pub fn record(&mut self, result: DeletionResult)
        ensures
            final(self).results@ == old(self).results@.push(result),
    {
        self.results.push(result);
    }
}

/// The eligible subset of `branches`, in order: those merged under some
/// strategy and not on the ignore list.
pub open spec fn spec_eligible_set(branches: Seq<Branch>, opts: Options) -> Seq<Branch>
    decreases branches.len(),
{
    if branches.len() == 0 {
        Seq::empty()
    } else {
        let prefix = spec_eligible_set(branches.drop_last(), opts);
        if spec_eligible(branches.last(), opts) {
            prefix.push(branches.last())
        } else {
            prefix
        }
    }
}

/// Filters classified branches down to those eligible for deletion.
pub fn eligible_branches(branches: &Vec<Branch>, opts: &Options) -> (r: Vec<Branch>)
    ensures
        r@ == spec_eligible_set(branches@, *opts),
{
    let mut r: Vec<Branch> = Vec::new();
    let mut i: usize = 0;
    while i < branches.len()
        invariant
            i <= branches@.len(),
            r@ == spec_eligible_set(branches@.take(i as int), *opts),
        decreases branches@.len() - i,
    {
        proof {
            assert(branches@.take(i + 1 as int).drop_last() =~= branches@.take(i as int));
            assert(branches@.take(i + 1 as int).last() == branches@[i as int]);
        }
        let b = &branches[i];
        if !(b.merge_status == MergeStatus::Unmerged) && !crate::branches::is_ignored(
            opts,
            &b.name,
        ) {
            r.push(
                Branch {
                    name: b.name.clone(),
                    has_remote_tracking_ref: b.has_remote_tracking_ref,
                    merge_status: b.merge_status,
                },
            );
        }
        i = i + 1;
    }
    proof {
        assert(branches@.take(branches@.len() as int) =~= branches@);
    }
    r
}

/// The deletions one eligible branch contributes under a delete mode: its
/// local deletion, its remote deletion, or — for `Both` — the local one and
/// then the remote one.
pub open spec fn spec_scope_commands(name: String, mode: DeleteMode) -> Seq<DeletionCommand> {
    match mode {
        DeleteMode::Local => seq![DeletionCommand { branch_name: name, scope: Scope::Local }],
        DeleteMode::Remote => seq![DeletionCommand { branch_name: name, scope: Scope::Remote }],
        DeleteMode::Both => seq![
            DeletionCommand { branch_name: name, scope: Scope::Local },
            DeletionCommand { branch_name: name, scope: Scope::Remote },
        ],
    }
}

/// The full deletion plan: each eligible branch's commands, branch by branch
/// in the eligible set's order.
pub open spec fn spec_plan(eligible: Seq<Branch>, mode: DeleteMode) -> Seq<DeletionCommand>
    decreases eligible.len(),
{
    if eligible.len() == 0 {
        Seq::empty()
    } else {
        spec_plan(eligible.drop_last(), mode) + spec_scope_commands(eligible.last().name, mode)
    }
}

/// Plans every deletion command the eligible set and the delete mode imply.
/// Planning performs nothing; an empty eligible set yields an empty plan.
pub fn deletion_plan(eligible: &Vec<Branch>, mode: &DeleteMode) -> (r: Vec<DeletionCommand>)
    ensures
        r@ == spec_plan(eligible@, *mode),
{
    let mut r: Vec<DeletionCommand> = Vec::new();
    let mut i: usize = 0;
    while i < eligible.len()
        invariant
            i <= eligible@.len(),
            r@ == spec_plan(eligible@.take(i as int), *mode),
        decreases eligible@.len() - i,
    {
        proof {
            assert(eligible@.take(i + 1 as int).drop_last() =~= eligible@.take(i as int));
            assert(eligible@.take(i + 1 as int).last() == eligible@[i as int]);
        }
        let name = &eligible[i].name;
        match *mode {
            DeleteMode::Local => {
                r.push(DeletionCommand { branch_name: name.clone(), scope: Scope::Local });
            },
            DeleteMode::Remote => {
                r.push(DeletionCommand { branch_name: name.clone(), scope: Scope::Remote });
            },
            DeleteMode::Both => {
                r.push(DeletionCommand { branch_name: name.clone(), scope: Scope::Local });
                r.push(DeletionCommand { branch_name: name.clone(), scope: Scope::Remote });
            },
        }
        proof {
            assert(r@ =~= spec_plan(eligible@.take(i + 1 as int), *mode));
        }
        i = i + 1;
    }
    proof {
        assert(eligible@.take(eligible@.len() as int) =~= eligible@);
    }
    r
}

/// Whether a confirmation prompt is owed: only when there is something to
/// delete and the run was not told to skip it. An empty eligible set never
/// prompts.
pub fn should_prompt(opts: &Options, eligible_count: usize) -> (r: bool)
    ensures
        r == (eligible_count > 0 && !opts.skip_confirmation),
{
    eligible_count > 0 && !opts.skip_confirmation
}

/// Whether a prompt answer is affirmative: it starts with `y` or `Y`.
pub open spec fn spec_affirmative(answer: Seq<char>) -> bool {
    answer.len() > 0 && (answer[0] == 'y' || answer[0] == 'Y')
}

/// Decides whether the user's answer to the confirmation prompt allows the
/// deletions to proceed; anything non-affirmative aborts them all.
pub fn is_affirmative(answer: &String) -> (r: bool)
    ensures
        r == spec_affirmative(answer@),
{
    let s = answer.as_str();
    if s.unicode_len() == 0 {
        return false;
    }
    let c = s.get_char(0);
    c == 'y' || c == 'Y'
}

/// The result to record for one issued command: `Deleted` when the command
/// succeeded, otherwise `Failed` with the reason the command reported. One
/// failure never aborts the rest of the batch; each command gets its own
/// result.
pub fn record_outcome(cmd: &DeletionCommand, succeeded: bool, reason: String) -> (r:
    DeletionResult)
    ensures
        r.branch_name == cmd.branch_name,
        r.scope == cmd.scope,
        succeeded ==> r.outcome == Outcome::Deleted,
        !succeeded ==> r.outcome == Outcome::Failed(reason),
{
    DeletionResult {
        branch_name: cmd.branch_name.clone(),
        scope: cmd.scope,
        outcome: if succeeded {
            Outcome::Deleted
        } else {
            Outcome::Failed(reason)
        },
    }
}

impl DeletionCommand {
    /// The argument vector to hand the version-control binary for this
    /// deletion: `git branch -D <name>` locally, `git push <remote> --delete
    /// <name>` remotely.
    pub fn argv(&self, remote: &String) -> (r: Vec<String>)
        ensures
            self.scope == Scope::Local ==> r@.len() == 4 && r@[0]@ == "git"@ && r@[1]@
                == "branch"@ && r@[2]@ == "-D"@ && r@[3]@ == self.branch_name@,
            self.scope == Scope::Remote ==> r@.len() == 5 && r@[0]@ == "git"@ && r@[1]@
                == "push"@ && r@[2]@ == remote@ && r@[3]@ == "--delete"@ && r@[4]@
                == self.branch_name@,
    {
        match self.scope {
            Scope::Local => vec![
                String::from_str("git"),
                String::from_str("branch"),
                String::from_str("-D"),
                self.branch_name.clone(),
            ],
            Scope::Remote => vec![
                String::from_str("git"),
                String::from_str("push"),
                remote.clone(),
                String::from_str("--delete"),
                self.branch_name.clone(),
            ],
        }
    }
}

/// No branch on the ignore list ever enters the eligible set.
pub proof fn lemma_eligible_set_excludes_ignored(branches: Seq<Branch>, opts: Options)
    ensures
        forall|i: int|
            0 <= i < spec_eligible_set(branches, opts).len()
                ==> !crate::branches::spec_is_ignored(
                opts,
                #[trigger] spec_eligible_set(branches, opts)[i].name@,
            ),
    decreases branches.len(),
{
    if branches.len() > 0 {
        lemma_eligible_set_excludes_ignored(branches.drop_last(), opts);
    }
}

/// Every branch in the eligible set is eligible: merged under some strategy
/// and not ignored.
pub proof fn lemma_eligible_set_members_eligible(branches: Seq<Branch>, opts: Options)
    ensures
        forall|i: int|
            0 <= i < spec_eligible_set(branches, opts).len() ==> spec_eligible(
                #[trigger] spec_eligible_set(branches, opts)[i],
                opts,
            ),
    decreases branches.len(),
{
    if branches.len() > 0 {
        lemma_eligible_set_members_eligible(branches.drop_last(), opts);
        let s = spec_eligible_set(branches, opts);
        let p = spec_eligible_set(branches.drop_last(), opts);
        assert forall|i: int| 0 <= i < s.len() implies spec_eligible(#[trigger] s[i], opts) by {
            if i < p.len() {
                assert(s[i] == p[i]);
            }
        }
    }
}

/// A local-only run plans no remote deletion, and a remote-only run plans no
/// local deletion, for any branch whatsoever.
pub proof fn lemma_plan_respects_scope(eligible: Seq<Branch>, mode: DeleteMode)
    ensures
        mode == DeleteMode::Local ==> forall|i: int|
            0 <= i < spec_plan(eligible, mode).len() ==> #[trigger] spec_plan(eligible, mode)[i].scope
                != Scope::Remote,
        mode == DeleteMode::Remote ==> forall|i: int|
            0 <= i < spec_plan(eligible, mode).len() ==> #[trigger] spec_plan(eligible, mode)[i].scope
                != Scope::Local,
    decreases eligible.len(),
{
    if eligible.len() > 0 {
        lemma_plan_respects_scope(eligible.drop_last(), mode);
    }
}

/// Every planned deletion names a branch of the eligible set: no command is
/// ever issued for a branch that was not eligible.
pub proof fn lemma_plan_names_come_from_eligible(eligible: Seq<Branch>, mode: DeleteMode)
    ensures
        forall|i: int|
            0 <= i < spec_plan(eligible, mode).len() ==> exists|j: int|
                0 <= j < eligible.len() && #[trigger] spec_plan(eligible, mode)[i].branch_name
                    == eligible[j].name,
    decreases eligible.len(),
{
    if eligible.len() > 0 {
        lemma_plan_names_come_from_eligible(eligible.drop_last(), mode);
        let whole = spec_plan(eligible, mode);
        let prefix = spec_plan(eligible.drop_last(), mode);
        assert forall|i: int| 0 <= i < whole.len() implies exists|j: int|
            0 <= j < eligible.len() && #[trigger] whole[i].branch_name == eligible[j].name by {
            if i < prefix.len() {
                assert(whole[i] == prefix[i]);
                let j = choose|j: int|
                    0 <= j < eligible.drop_last().len() && prefix[i].branch_name
                        == eligible.drop_last()[j].name;
                assert(eligible.drop_last()[j] == eligible[j]);
                assert(whole[i].branch_name == eligible[j].name);
            } else {
                assert(whole[i] == spec_scope_commands(eligible.last().name, mode)[i
                    - prefix.len()]);
                assert(whole[i].branch_name == eligible[eligible.len() - 1].name);
            }
        }
    }
}

/// An empty eligible set plans zero deletion commands: the run performs no
/// deletion call and its report stays empty.
pub proof fn lemma_empty_eligible_set_plans_nothing(eligible: Seq<Branch>, mode: DeleteMode)
    requires
        eligible.len() == 0,
    ensures
        spec_plan(eligible, mode).len() == 0,
{
}

} // verus!
