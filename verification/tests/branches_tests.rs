use git_clean::branches::{
    all_commits_applied, ancestry_from_exit_code, branch_names, classify, classify_branch,
    clean_line, enumerate, is_ignored, split_lines, Branch, MergeStatus,
};
use git_clean::options::{DeleteMode, Options};

fn options() -> Options {
    Options {
        remote: "origin".to_string(),
        base_branch: "main".to_string(),
        squashes: false,
        delete_unpushed_branches: false,
        ignored_branches: Vec::new(),
        delete_mode: DeleteMode::Both,
        skip_confirmation: false,
    }
}

#[test]
fn test_classify_ancestor_is_merged_by_ancestry() {
    let opts = options();
    assert_eq!(
        MergeStatus::MergedByAncestry,
        classify(true, Some(true), None, &opts)
    );
    assert_eq!(
        MergeStatus::MergedByAncestry,
        classify(false, Some(true), None, &opts)
    );
}

#[test]
fn test_classify_unmerged_branch_stays_unmerged() {
    // Squash detection enabled, but the branch's patch differs from the base.
    let mut opts = options();
    opts.squashes = true;
    assert_eq!(
        MergeStatus::Unmerged,
        classify(true, Some(false), Some(false), &opts)
    );
}

#[test]
fn test_classify_squashed_branch() {
    let mut opts = options();
    opts.squashes = true;
    assert_eq!(
        MergeStatus::MergedBySquash,
        classify(true, Some(false), Some(true), &opts)
    );
    // Without the opt-in flag the squash answer is not consulted.
    opts.squashes = false;
    assert_eq!(
        MergeStatus::Unmerged,
        classify(true, Some(false), Some(true), &opts)
    );
}

#[test]
fn test_classify_never_pushed_fast_path() {
    let mut opts = options();
    opts.delete_unpushed_branches = true;
    assert_eq!(
        MergeStatus::NeverPushed,
        classify(false, None, None, &opts)
    );
    // The fast path wins even over a positive ancestry answer.
    assert_eq!(
        MergeStatus::NeverPushed,
        classify(false, Some(true), None, &opts)
    );
    // Without the flag an unpushed branch gets no special treatment.
    opts.delete_unpushed_branches = false;
    assert_eq!(MergeStatus::Unmerged, classify(false, None, None, &opts));
}

#[test]
fn test_classify_failed_query_is_conservative() {
    // A failed ancestry or squash command never makes a branch deletable.
    let mut opts = options();
    opts.squashes = true;
    assert_eq!(MergeStatus::Unmerged, classify(true, None, None, &opts));
    assert_eq!(
        MergeStatus::Unmerged,
        classify(true, Some(false), None, &opts)
    );
}

#[test]
fn test_classify_twice_yields_identical_status() {
    let opts = options();
    let cases = [
        (true, Some(true), None),
        (false, Some(false), Some(true)),
        (false, None, None),
    ];
    for (has_remote, ancestry, squash) in cases {
        let first = classify(has_remote, ancestry, squash, &opts);
        let second = classify(has_remote, ancestry, squash, &opts);
        assert_eq!(first, second);
    }
}

#[test]
fn test_classify_branch_keeps_name_and_remote_flag() {
    let opts = options();
    let branch = Branch {
        name: "old-feature".to_string(),
        has_remote_tracking_ref: true,
        merge_status: MergeStatus::Unmerged,
    };
    let classified = classify_branch(&branch, Some(true), None, &opts);
    assert_eq!("old-feature", classified.name);
    assert!(classified.has_remote_tracking_ref);
    assert_eq!(MergeStatus::MergedByAncestry, classified.merge_status);
}

#[test]
fn test_enumerate_excludes_base_branch_and_flags_remotes() {
    let opts = options();
    let locals = vec![
        "main".to_string(),
        "feature".to_string(),
        "wip".to_string(),
    ];
    let with_remote = vec!["feature".to_string()];
    let candidates = enumerate(&locals, &with_remote, &opts);
    assert_eq!(2, candidates.len());
    assert_eq!("feature", candidates[0].name);
    assert!(candidates[0].has_remote_tracking_ref);
    assert_eq!(MergeStatus::Unmerged, candidates[0].merge_status);
    assert_eq!("wip", candidates[1].name);
    assert!(!candidates[1].has_remote_tracking_ref);
    assert_eq!(MergeStatus::Unmerged, candidates[1].merge_status);
}

#[test]
fn test_enumerate_of_no_branches_is_empty() {
    let opts = options();
    let candidates = enumerate(&Vec::new(), &Vec::new(), &opts);
    assert!(candidates.is_empty());
}

#[test]
fn test_split_lines() {
    let text = "a\nb\nc\n".to_string();
    assert_eq!(vec!["a", "b", "c"], split_lines(&text));
    // A final unterminated line is kept; inner empty lines are kept too.
    let text = "a\n\nb".to_string();
    assert_eq!(vec!["a", "", "b"], split_lines(&text));
    assert!(split_lines(&String::new()).is_empty());
    assert_eq!(vec![""; 1], split_lines(&"\n".to_string()));
}

#[test]
fn test_clean_line_strips_listing_markers() {
    assert_eq!("main", clean_line(&"* main".to_string()));
    assert_eq!("feature", clean_line(&"  feature".to_string()));
    assert_eq!("plain", clean_line(&"plain".to_string()));
    assert_eq!("", clean_line(&"  ".to_string()));
    // Only leading markers go; inner characters stay.
    assert_eq!("a b*c", clean_line(&" *a b*c".to_string()));
}

#[test]
fn test_branch_names_from_listing() {
    let listing = "* main\n  feature\n  wip\n".to_string();
    let names = branch_names(&split_lines(&listing));
    assert_eq!(vec!["main", "feature", "wip"], names);
    // Empty lines never become branch names.
    let listing = "  one\n\n  two".to_string();
    assert_eq!(vec!["one", "two"], branch_names(&split_lines(&listing)));
    assert!(branch_names(&Vec::new()).is_empty());
}

#[test]
fn test_all_commits_applied() {
    let applied = vec!["- 1a2b".to_string(), "- 3c4d".to_string()];
    assert!(all_commits_applied(&applied));
    let missing = vec!["- 1a2b".to_string(), "+ 3c4d".to_string()];
    assert!(!all_commits_applied(&missing));
    // No commits beyond the base at all.
    assert!(all_commits_applied(&Vec::new()));
    // Empty lines do not count as missing commits.
    assert!(all_commits_applied(&vec![String::new()]));
}

#[test]
fn test_ancestry_from_exit_code() {
    assert_eq!(Some(true), ancestry_from_exit_code(Some(0)));
    assert_eq!(Some(false), ancestry_from_exit_code(Some(1)));
    // A command failure yields no answer, never a merged verdict.
    assert_eq!(None, ancestry_from_exit_code(Some(128)));
    assert_eq!(None, ancestry_from_exit_code(None));
}

#[test]
fn test_is_ignored() {
    let mut opts = options();
    opts.ignored_branches = vec!["keep-me".to_string()];
    assert!(is_ignored(&opts, &"keep-me".to_string()));
    assert!(!is_ignored(&opts, &"feature".to_string()));
}
