//! Candidate branches and their classification.
//!
//! A branch qualifies for deletion when its changes are already represented on
//! the base branch: every commit reachable from its tip is reachable from the
//! base tip (merged by ancestry), the patch it would contribute is already on
//! the base branch (merged by squash), or — on an opt-in fast path — it was
//! never pushed to the remote at all. The repository answers the underlying
//! graph and diff questions; this module turns those answers into a status.

use crate::options::Options;
use vstd::prelude::*;

verus! {

/// How a branch relates to the base branch's tip.
#[derive(Clone, Copy, Debug, PartialEq, Eq, Structural)]
pub enum MergeStatus {
    /// Not known to be represented on the base branch; never deletable.
    Unmerged,
    /// The branch tip is an ancestor of (or equal to) the base tip.
    MergedByAncestry,
    /// The branch's net change is already on the base branch, squashed.
    MergedBySquash,
    /// No remote-tracking ref exists and the fast path treats that as merged.
    NeverPushed,
}

/// One local branch discovered for this run, rebuilt fresh every run.
#[derive(Clone, Debug, PartialEq, Eq)]
pub struct Branch {
    /// The branch name, unique within a run.
    pub name: String,
    /// Whether a remote-tracking ref for it exists on the configured remote.
    pub has_remote_tracking_ref: bool,
    /// The classification, `Unmerged` until the classifier has run.
    pub merge_status: MergeStatus,
}

/// Whether some string in `list` spells out `name`.
pub open spec fn name_in(list: Seq<String>, name: Seq<char>) -> bool {
    exists|i: int| 0 <= i < list.len() && #[trigger] list[i]@ == name
}

/// Whether the configuration excludes a branch of this name from deletion.
pub open spec fn spec_is_ignored(opts: Options, name: Seq<char>) -> bool {
    name_in(opts.ignored_branches@, name)
}

/// Whether a classified branch may be deleted: it is merged under some
/// strategy and its name is not on the ignore list.
pub open spec fn spec_eligible(b: Branch, opts: Options) -> bool {
    b.merge_status != MergeStatus::Unmerged && !spec_is_ignored(opts, b.name@)
}

/// Whether `list` holds a string equal to `name`.
pub fn contains_string(list: &Vec<String>, name: &String) -> (r: bool)
    ensures
        r == name_in(list@, name@),
{
    let mut i: usize = 0;
    while i < list.len()
        invariant
            i <= list@.len(),
            forall|j: int| 0 <= j < i ==> #[trigger] list@[j]@ != name@,
        decreases list@.len() - i,
    {
        if list[i] == *name {
            return true;
        }
        i = i + 1;
    }
    false
}

/// Whether the configuration excludes a branch of this name from deletion.
pub fn is_ignored(opts: &Options, name: &String) -> (r: bool)
    ensures
        r == spec_is_ignored(*opts, name@),
{
    contains_string(&opts.ignored_branches, name)
}

/// The merge status assigned to a branch, given the repository's answers.
/// `has_remote` is whether the branch has a remote-tracking ref; `ancestry`
/// and `squash` report the ancestry and squashed-patch checks, `None` where a
/// check was not run or its command failed (a failed check never makes a
/// branch deletable). The strategies apply in a fixed order, first match wins:
/// the never-pushed fast path, then ancestry, then (opt-in) squash detection.
pub open spec fn spec_classify(
    has_remote: bool,
    ancestry: Option<bool>,
    squash: Option<bool>,
    opts: Options,
) -> MergeStatus {
    if opts.delete_unpushed_branches && !has_remote {
        MergeStatus::NeverPushed
    } else if ancestry == Some(true) {
        MergeStatus::MergedByAncestry
    } else if opts.squashes && squash == Some(true) {
        MergeStatus::MergedBySquash
    } else {
        MergeStatus::Unmerged
    }
}

/// Classifies one branch from the repository's answers. Pure: it decides a
/// status and never touches the repository itself.
pub fn classify(
    has_remote: bool,
    ancestry: Option<bool>,
    squash: Option<bool>,
    opts: &Options,
) -> (r: MergeStatus)
    ensures
        r == spec_classify(has_remote, ancestry, squash, *opts),
{
    if opts.delete_unpushed_branches && !has_remote {
        MergeStatus::NeverPushed
    } else if ancestry == Some(true) {
        MergeStatus::MergedByAncestry
    } else if opts.squashes && squash == Some(true) {
        MergeStatus::MergedBySquash
    } else {
        MergeStatus::Unmerged
    }
}

/// Returns `branch` with its merge status filled in from the repository's
/// answers; name and remote-tracking flag are kept as they are.
pub fn classify_branch(
    branch: &Branch,
    ancestry: Option<bool>,
    squash: Option<bool>,
    opts: &Options,
) -> (r: Branch)
    ensures
        r.name == branch.name,
        r.has_remote_tracking_ref == branch.has_remote_tracking_ref,
        r.merge_status == spec_classify(
            branch.has_remote_tracking_ref,
            ancestry,
            squash,
            *opts,
        ),
{
    Branch {
        name: branch.name.clone(),
        has_remote_tracking_ref: branch.has_remote_tracking_ref,
        merge_status: classify(branch.has_remote_tracking_ref, ancestry, squash, opts),
    }
}

/// The lines already completed and the partial line still open after reading
/// `s`: a `'\n'` closes the open line, any other character extends it.
pub open spec fn spec_split_state(s: Seq<char>) -> (Seq<Seq<char>>, Seq<char>)
    decreases s.len(),
{
    if s.len() == 0 {
        (Seq::empty(), Seq::empty())
    } else {
        let (done, cur) = spec_split_state(s.drop_last());
        if s.last() == '\n' {
            (done.push(cur), Seq::empty())
        } else {
            (done, cur.push(s.last()))
        }
    }
}

/// The lines of a command's captured output: what stands between the
/// newlines, with a final unterminated line kept and a trailing empty one
/// dropped.
pub open spec fn spec_split_lines(s: Seq<char>) -> Seq<Seq<char>> {
    let (done, cur) = spec_split_state(s);
    if cur.len() == 0 {
        done
    } else {
        done.push(cur)
    }
}

/// A line with its listing markers removed: every leading space or `*` (the
/// checked-out marker in a branch listing) is dropped.
pub open spec fn spec_clean_line(line: Seq<char>) -> Seq<char>
    decreases line.len(),
{
    if line.len() > 0 && (line[0] == ' ' || line[0] == '*') {
        spec_clean_line(line.subrange(1, line.len() as int))
    } else {
        line
    }
}

/// The branch names in a listing's lines: each line cleaned of its markers,
/// empty lines dropped.
pub open spec fn spec_branch_names(lines: Seq<String>) -> Seq<Seq<char>>
    decreases lines.len(),
{
    if lines.len() == 0 {
        Seq::empty()
    } else {
        let prefix = spec_branch_names(lines.drop_last());
        let cleaned = spec_clean_line(lines.last()@);
        if cleaned.len() == 0 {
            prefix
        } else {
            prefix.push(cleaned)
        }
    }
}

/// Splitting is unchanged over a stretch that holds no newline: the finished
/// lines stay, the open line grows by that stretch.
proof fn lemma_split_state_extend(s: Seq<char>, a: int, b: int)
    requires
        0 <= a <= b <= s.len(),
        forall|k: int| a <= k < b ==> s[k] != '\n',
    ensures
        spec_split_state(s.take(b)).0 == spec_split_state(s.take(a)).0,
        spec_split_state(s.take(b)).1 =~= spec_split_state(s.take(a)).1 + s.subrange(a, b),
    decreases b - a,
{
    if a < b {
        lemma_split_state_extend(s, a, b - 1);
        assert(s.take(b).drop_last() =~= s.take(b - 1));
        assert(s.take(b).last() == s[b - 1]);
        assert(spec_split_state(s.take(a)).1 + s.subrange(a, b) =~= (spec_split_state(
            s.take(a),
        ).1 + s.subrange(a, b - 1)).push(s[b - 1]));
    } else {
        assert(spec_split_state(s.take(a)).1 + s.subrange(a, b) =~= spec_split_state(
            s.take(a),
        ).1);
    }
}

/// Splits a command's captured output into its lines.
pub fn split_lines(text: &String) -> (r: Vec<String>)
    ensures
        r@.map_values(|line: String| line@) == spec_split_lines(text@),
{
    let s = text.as_str();
    let n = s.unicode_len();
    let mut r: Vec<String> = Vec::new();
    let mut line_start: usize = 0;
    let mut i: usize = 0;
    while i < n
        invariant
            line_start <= i <= n,
            n == text@.len(),
            s@ == text@,
            spec_split_state(text@.take(line_start as int)).1 =~= Seq::<char>::empty(),
            r@.map_values(|line: String| line@) == spec_split_state(
                text@.take(line_start as int),
            ).0,
            forall|k: int| line_start <= k < i ==> text@[k] != '\n',
        decreases n - i,
    {
        if s.get_char(i) == '\n' {
            let line = String::from_str(s.substring_char(line_start, i));
            proof {
                lemma_split_state_extend(text@, line_start as int, i as int);
                assert(text@.take(i + 1 as int).drop_last() =~= text@.take(i as int));
                assert(spec_split_state(text@.take(i + 1 as int)).0 =~= spec_split_state(
                    text@.take(line_start as int),
                ).0.push(text@.subrange(line_start as int, i as int)));
                assert(r@.push(line).map_values(|l: String| l@) =~= r@.map_values(
                    |l: String| l@,
                ).push(line@));
            }
            r.push(line);
            line_start = i + 1;
        }
        i = i + 1;
    }
    proof {
        lemma_split_state_extend(text@, line_start as int, n as int);
        assert(text@.take(n as int) =~= text@);
    }
    if line_start < n {
        let line = String::from_str(s.substring_char(line_start, n));
        proof {
            assert(r@.push(line).map_values(|l: String| l@) =~= r@.map_values(
                |l: String| l@,
            ).push(line@));
            assert(spec_split_state(text@).1 =~= text@.subrange(line_start as int, n as int));
        }
        r.push(line);
    }
    r
}

/// Removes a listing line's leading markers (spaces and the `*` that marks
/// the checked-out branch).
pub fn clean_line(line: &String) -> (r: String)
    ensures
        r@ == spec_clean_line(line@),
{
    let s = line.as_str();
    let n = s.unicode_len();
    let mut k: usize = 0;
    proof {
        assert(line@.subrange(0, n as int) =~= line@);
    }
    while k < n
        invariant
            k <= n,
            n == line@.len(),
            s@ == line@,
            spec_clean_line(line@) == spec_clean_line(line@.subrange(k as int, n as int)),
        decreases n - k,
    {
        let c = s.get_char(k);
        if !(c == ' ' || c == '*') {
            proof {
                assert(line@.subrange(k as int, n as int)[0] == line@[k as int]);
                assert(spec_clean_line(line@.subrange(k as int, n as int)) == line@.subrange(
                    k as int,
                    n as int,
                ));
            }
            return String::from_str(s.substring_char(k, n));
        }
        proof {
            assert(line@.subrange(k as int, n as int).subrange(
                1,
                line@.subrange(k as int, n as int).len() as int,
            ) =~= line@.subrange(k + 1 as int, n as int));
        }
        k = k + 1;
    }
    proof {
        assert(line@.subrange(n as int, n as int) =~= Seq::<char>::empty());
    }
    String::from_str(s.substring_char(k, n))
}

/// Extracts the branch names from the lines of a branch listing: markers
/// removed, empty lines dropped.
pub fn branch_names(lines: &Vec<String>) -> (r: Vec<String>)
    ensures
        r@.map_values(|name: String| name@) == spec_branch_names(lines@),
{
    let mut r: Vec<String> = Vec::new();
    let mut i: usize = 0;
    while i < lines.len()
        invariant
            i <= lines@.len(),
            r@.map_values(|name: String| name@) == spec_branch_names(lines@.take(i as int)),
        decreases lines@.len() - i,
    {
        proof {
            assert(lines@.take(i + 1 as int).drop_last() =~= lines@.take(i as int));
            assert(lines@.take(i + 1 as int).last() == lines@[i as int]);
        }
        let cleaned = clean_line(&lines[i]);
        if cleaned.as_str().unicode_len() > 0 {
            proof {
                assert(r@.push(cleaned).map_values(|l: String| l@) =~= r@.map_values(
                    |l: String| l@,
                ).push(cleaned@));
            }
            r.push(cleaned);
        }
        i = i + 1;
    }
    proof {
        assert(lines@.take(lines@.len() as int) =~= lines@);
    }
    r
}

/// The unclassified candidate set: every local branch except the base branch,
/// in listing order, each marked with whether `with_remote` (the branches that
/// have a remote-tracking ref on the configured remote) names it.
pub open spec fn spec_enumerate(
    locals: Seq<String>,
    with_remote: Seq<String>,
    base: Seq<char>,
) -> Seq<Branch>
    decreases locals.len(),
{
    if locals.len() == 0 {
        Seq::empty()
    } else {
        let prefix = spec_enumerate(locals.drop_last(), with_remote, base);
        if locals.last()@ == base {
            prefix
        } else {
            prefix.push(
                Branch {
                    name: locals.last(),
                    has_remote_tracking_ref: name_in(with_remote, locals.last()@),
                    merge_status: MergeStatus::Unmerged,
                },
            )
        }
    }
}

/// Builds the candidate set from the repository's branch listings: all local
/// branches except the base branch, each with its remote-tracking flag set
/// and its merge status left `Unmerged` for the classifier.
pub fn enumerate(locals: &Vec<String>, with_remote: &Vec<String>, opts: &Options) -> (r: Vec<
    Branch,
>)
    ensures
        r@ == spec_enumerate(locals@, with_remote@, opts.base_branch@),
{
    let mut r: Vec<Branch> = Vec::new();
    let mut i: usize = 0;
    while i < locals.len()
        invariant
            i <= locals@.len(),
            r@ == spec_enumerate(locals@.take(i as int), with_remote@, opts.base_branch@),
        decreases locals@.len() - i,
    {
        proof {
            assert(locals@.take(i + 1 as int).drop_last() =~= locals@.take(i as int));
            assert(locals@.take(i + 1 as int).last() == locals@[i as int]);
        }
        if !(locals[i] == opts.base_branch) {
            let b = Branch {
                name: locals[i].clone(),
                has_remote_tracking_ref: contains_string(with_remote, &locals[i]),
                merge_status: MergeStatus::Unmerged,
            };
            r.push(b);
        }
        i = i + 1;
    }
    proof {
        assert(locals@.take(locals@.len() as int) =~= locals@);
    }
    r
}

/// Whether a commit-by-commit comparison against the base branch reports
/// every commit as already applied: each non-empty report line marks its
/// commit with a leading `-` (already represented on the base branch) rather
/// than `+` (missing from it). True of an empty report.
pub open spec fn spec_all_commits_applied(lines: Seq<String>) -> bool {
    forall|i: int|
        0 <= i < lines.len() ==> #[trigger] lines[i]@.len() == 0 || lines[i]@[0] == '-'
}

/// Interprets the output of the commit-by-commit comparison that backs squash
/// detection: the branch's patch is already represented on the base branch
/// exactly when no line reports a missing commit.
pub fn all_commits_applied(lines: &Vec<String>) -> (r: bool)
    ensures
        r == spec_all_commits_applied(lines@),
{
    let mut i: usize = 0;
    while i < lines.len()
        invariant
            i <= lines@.len(),
            forall|j: int|
                0 <= j < i ==> #[trigger] lines@[j]@.len() == 0 || lines@[j]@[0] == '-',
        decreases lines@.len() - i,
    {
        let s = lines[i].as_str();
        if s.unicode_len() > 0 && !(s.get_char(0) == '-') {
            return false;
        }
        i = i + 1;
    }
    true
}

/// Interprets the exit code of the ancestry query: the underlying command
/// exits with 0 when the branch tip is an ancestor of the base tip and with 1
/// when it is not; any other exit (or none, `None`) means the command itself
/// failed and the check has no answer.
pub fn ancestry_from_exit_code(code: Option<i32>) -> (r: Option<bool>)
    ensures
        code == Some(0i32) ==> r == Some(true),
        code == Some(1i32) ==> r == Some(false),
        code != Some(0i32) && code != Some(1i32) ==> r == None::<bool>,
{
    match code {
        Some(0i32) => Some(true),
        Some(1i32) => Some(false),
        _ => None,
    }
}

/// Every branch the enumerator produces is distinct from the base branch and
/// starts out unclassified.
pub proof fn lemma_enumerate_excludes_base(
    locals: Seq<String>,
    with_remote: Seq<String>,
    base: Seq<char>,
)
    ensures
        forall|i: int|
            0 <= i < spec_enumerate(locals, with_remote, base).len()
                ==> #[trigger] spec_enumerate(locals, with_remote, base)[i].name@ != base
                && spec_enumerate(locals, with_remote, base)[i].merge_status
                == MergeStatus::Unmerged,
    decreases locals.len(),
{
    if locals.len() > 0 {
        lemma_enumerate_excludes_base(locals.drop_last(), with_remote, base);
    }
}

/// A branch whose tip is an ancestor of the base tip is classified as merged
/// by ancestry, whenever the never-pushed fast path does not claim it first.
pub proof fn lemma_ancestor_is_merged_by_ancestry(
    has_remote: bool,
    squash: Option<bool>,
    opts: Options,
)
    requires
        !(opts.delete_unpushed_branches && !has_remote),
    ensures
        spec_classify(has_remote, Some(true), squash, opts) == MergeStatus::MergedByAncestry,
{
}

/// Classification is a pure function of the repository's answers and the
/// configuration: two runs over unchanged repository state assign every
/// branch the same merge status.
pub proof fn lemma_classify_deterministic(
    has_remote1: bool,
    ancestry1: Option<bool>,
    squash1: Option<bool>,
    has_remote2: bool,
    ancestry2: Option<bool>,
    squash2: Option<bool>,
    opts: Options,
)
    requires
        has_remote1 == has_remote2,
        ancestry1 == ancestry2,
        squash1 == squash2,
    ensures
        spec_classify(has_remote1, ancestry1, squash1, opts) == spec_classify(
            has_remote2,
            ancestry2,
            squash2,
            opts,
        ),
{
}

/// A branch on the ignore list is never eligible for deletion, whatever its
/// merge status.
pub proof fn lemma_ignored_never_eligible(b: Branch, opts: Options)
    requires
        spec_is_ignored(opts, b.name@),
    ensures
        !spec_eligible(b, opts),
{
}

} // verus!
