//! Resolved configuration for one cleanup run, and the preconditions that must
//! hold before any branch may be classified or deleted.

use vstd::prelude::*;

verus! {

/// Which kinds of deletion a run performs: only local branches, only their
/// remote counterparts, or both.
#[derive(Clone, Copy, Debug, PartialEq, Eq, Structural)]
pub enum DeleteMode {
    Local,
    Remote,
    Both,
}

/// The exact warning text shown before deletions for each delete mode.
pub open spec fn spec_warning_message(mode: DeleteMode) -> Seq<char> {
    match mode {
        DeleteMode::Local => "The following branches will be deleted locally:"@,
        DeleteMode::Remote => "The following branches will be deleted remotely:"@,
        DeleteMode::Both => "The following branches will be deleted locally and remotely:"@,
    }
}

impl DeleteMode {
    /// The warning shown to the user before any deletion is confirmed.
    pub fn warning_message(&self) -> (r: String)
        ensures
            r@ == spec_warning_message(*self),
    {
        match *self {
            DeleteMode::Local => String::from_str(
                "The following branches will be deleted locally:",
            ),
            DeleteMode::Remote => String::from_str(
                "The following branches will be deleted remotely:",
            ),
            DeleteMode::Both => String::from_str(
                "The following branches will be deleted locally and remotely:",
            ),
        }
    }
}

/// A precondition failure that aborts the whole run before anything is
/// classified or deleted.
#[derive(Clone, Copy, Debug, PartialEq, Eq, Structural)]
pub enum Error {
    /// The checked-out branch is not the configured base branch.
    CurrentBranchInvalid,
    /// The configured remote matches none of the repository's remotes.
    InvalidRemote,
}

/// Whether `pattern` is a regular expression that `regex` accepts; a fixed
/// property of the pattern text.
pub uninterp spec fn regex_is_valid(pattern: Seq<char>) -> bool;

/// The concatenation, in order, of the whole-match text of every
/// non-overlapping match of `pattern` in `text`, as `regex`'s leftmost-first
/// match iteration produces them. A function of the two texts alone.
pub uninterp spec fn regex_captures_concat(pattern: Seq<char>, text: Seq<char>) -> Seq<char>;

/// Relies on `regex::Regex::new` and `regex::Regex::captures_iter`: compiles
/// `pattern`, returning `None` exactly when the pattern is rejected, and
/// otherwise concatenates the whole-match text (capture group 0) of every
/// non-overlapping match in `text`.
#[verifier::external_body]
fn concat_pattern_matches(pattern: &String, text: &String) -> (r: Option<String>)
    ensures
        r is Some <==> regex_is_valid(pattern@),
        r matches Some(s) ==> s@ == regex_captures_concat(pattern@, text@),
{
    let re = match regex::Regex::new(pattern) {
        Ok(re) => re,
        Err(_) => return None,
    };
    let mut acc = String::new();
    for caps in re.captures_iter(text) {
        acc.push_str(&caps[0]);
    }
    Some(acc)
}

/// Whether the configured remote name, used as a pattern, matches some
/// non-empty part of the repository's remote listing.
pub open spec fn spec_remote_found(remote: Seq<char>, remotes_text: Seq<char>) -> bool {
    regex_is_valid(remote) && regex_captures_concat(remote, remotes_text).len() > 0
}

/// The options a run was invoked with, resolved once and never changed.
#[derive(Clone, Debug, PartialEq, Eq)]
pub struct Options {
    /// Remote to validate and to delete remote branches on.
    pub remote: String,
    /// Branch whose tip every merge check is anchored to.
    pub base_branch: String,
    /// Whether to also detect branches merged by squashing.
    pub squashes: bool,
    /// Whether a branch with no remote-tracking ref is deletable outright.
    pub delete_unpushed_branches: bool,
    /// Branch names that are never deleted, whatever their merge status.
    pub ignored_branches: Vec<String>,
    /// Which kinds of deletion this run performs.
    pub delete_mode: DeleteMode,
    /// Whether to delete without asking for confirmation first.
    pub skip_confirmation: bool,
}

impl Options {
    /// Checks that the repository is in a state where cleanup is safe:
    /// the checked-out branch (`current_branch`) must be the configured base
    /// branch, and the configured remote, used as a pattern, must match the
    /// repository's remote listing (`remotes_text`, the remote names as the
    /// repository reports them). Read-only; the first failed check wins.
    pub fn validate(&self, current_branch: &String, remotes_text: &String) -> (r: Result<
        (),
        Error,
    >)
        ensures
            current_branch@ != self.base_branch@ ==> r == Err::<(), Error>(
                Error::CurrentBranchInvalid,
            ),
            current_branch@ == self.base_branch@ && !spec_remote_found(
                self.remote@,
                remotes_text@,
            ) ==> r == Err::<(), Error>(Error::InvalidRemote),
            current_branch@ == self.base_branch@ && spec_remote_found(
                self.remote@,
                remotes_text@,
            ) ==> r == Ok::<(), Error>(()),
    {
        if !(*current_branch == self.base_branch) {
            return Err(Error::CurrentBranchInvalid);
        }
        match concat_pattern_matches(&self.remote, remotes_text) {
            None => Err(Error::InvalidRemote),
            Some(found) => {
                if found.as_str().is_empty() {
                    Err(Error::InvalidRemote)
                } else {
                    Ok(())
                }
            },
        }
    }
}

} // verus!
