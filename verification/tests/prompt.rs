use git_prompt::commit::CommitId;
use git_prompt::failure::Failure;
use git_prompt::head::HeadReference;
use git_prompt::kind::ChangeKind;
use git_prompt::output::{prompt, OutputData};
use git_prompt::state::OperationState;
use git_prompt::summary::{join_spaced, Summary};

const FULL: &str = "484c4c9670bb2a1c5d1e0f3a9b8c7d6e5f4a3b2c";

fn head(shorthand: Option<&str>) -> HeadReference {
    HeadReference::new(shorthand.map(|name| name.to_string()), CommitId::parse(FULL).unwrap())
}

fn on_main(operation: OperationState, changes: Option<Vec<ChangeKind>>) -> OutputData {
    OutputData::new(Some(head(Some("main"))), operation, changes)
}

/// Takes the colour sequences out of a line.
fn plain(line: &str) -> String {
    let mut out = String::new();
    let mut rest = line;
    while let Some(start) = rest.find('\x1b') {
        out.push_str(&rest[..start]);
        let end = rest[start..].find('m').unwrap();
        rest = &rest[start + end + 1..];
    }
    out.push_str(rest);
    out
}

#[test]
fn nothing_joins_to_nothing() {
    assert_eq!(join_spaced(&vec![]), "");
}

#[test]
fn one_text_joins_to_itself() {
    assert_eq!(join_spaced(&vec!["a".to_string()]), "a");
}

#[test]
fn texts_join_by_single_spaces() {
    assert_eq!(
        join_spaced(&vec!["a".to_string(), "bc".to_string(), "d".to_string()]),
        "a bc d"
    );
}

#[test]
fn an_empty_text_keeps_its_place_in_a_join() {
    assert_eq!(
        join_spaced(&vec!["a".to_string(), String::new(), "b".to_string()]),
        "a  b"
    );
    assert_eq!(join_spaced(&vec![String::new(), "b".to_string()]), " b");
}

#[test]
fn a_summary_with_every_field() {
    let summary = Summary {
        branch: "main".to_string(),
        revision: Some("484c4c9670bb2".to_string()),
        status: Some("?*".to_string()),
        operation: Some("rebase".to_string()),
    };
    assert_eq!(
        summary.render(),
        "[\x1b[38;5;4mmain\x1b[0m @ \x1b[38;5;3m484c4c9670bb2\x1b[0m \x1b[38;5;1m?*\x1b[0m \x1b[38;5;2mrebase\x1b[0m] "
    );
}

#[test]
fn a_summary_with_the_branch_alone() {
    let summary = Summary {
        branch: "main".to_string(),
        revision: None,
        status: None,
        operation: None,
    };
    assert_eq!(summary.render(), "[\x1b[38;5;4mmain\x1b[0m @ ] ");
    assert_eq!(plain(&summary.render()), "[main @ ] ");
}

#[test]
fn absent_fields_leave_no_space() {
    let summary = Summary {
        branch: "dev".to_string(),
        revision: None,
        status: Some("+".to_string()),
        operation: None,
    };
    assert_eq!(summary.render(), "[\x1b[38;5;4mdev\x1b[0m @ \x1b[38;5;1m+\x1b[0m] ");
    let summary = Summary {
        branch: "dev".to_string(),
        revision: Some("0123456789abc".to_string()),
        status: None,
        operation: Some("merge".to_string()),
    };
    assert_eq!(plain(&summary.render()), "[dev @ 0123456789abc merge] ");
    let summary = Summary {
        branch: "dev".to_string(),
        revision: None,
        status: None,
        operation: Some("bisect".to_string()),
    };
    assert_eq!(plain(&summary.render()), "[dev @ bisect] ");
}

#[test]
fn a_clean_repository_on_main() {
    let data = on_main(OperationState::Clean, Some(vec![]));
    assert_eq!(data.status(), None);
    assert_eq!(data.state(), None);
    assert_eq!(data.branch(), Ok("main".to_string()));
    assert_eq!(data.rev(), Ok(Some("484c4c9670bb2".to_string())));
    let line = prompt(Some(&data));
    assert_eq!(line, "[\x1b[38;5;4mmain\x1b[0m @ \x1b[38;5;3m484c4c9670bb2\x1b[0m] ");
    assert_eq!(plain(&line), "[main @ 484c4c9670bb2] ");
}

#[test]
fn a_clean_repository_has_neither_status_nor_operation() {
    for changes in [
        None,
        Some(vec![]),
        Some(vec![ChangeKind::Ignored, ChangeKind::Unmodified]),
    ] {
        let data = on_main(OperationState::Clean, changes);
        assert_eq!(data.status(), None);
        assert_eq!(data.state(), None);
        let summary = data.summary().unwrap();
        assert_eq!(summary.status, None);
        assert_eq!(summary.operation, None);
        assert_eq!(plain(&prompt(Some(&data))), "[main @ 484c4c9670bb2] ");
    }
}

#[test]
fn in_a_rebase_with_an_untracked_and_a_modified_file() {
    let changes = vec![ChangeKind::Untracked, ChangeKind::Modified];
    let data = on_main(OperationState::Rebase, Some(changes.clone()));
    assert_eq!(data.state(), Some("rebase".to_string()));
    assert_eq!(data.status(), Some("?*".to_string()));
    assert_eq!(
        prompt(Some(&data)),
        "[\x1b[38;5;4mmain\x1b[0m @ \x1b[38;5;3m484c4c9670bb2\x1b[0m \x1b[38;5;1m?*\x1b[0m \x1b[38;5;2mrebase\x1b[0m] "
    );
    let data = on_main(OperationState::RebaseMerge, Some(changes));
    assert_eq!(data.state(), Some("rebase-merge".to_string()));
    assert_eq!(plain(&prompt(Some(&data))), "[main @ 484c4c9670bb2 ?* rebase-merge] ");
    let data = on_main(
        OperationState::RebaseInteractive,
        Some(vec![ChangeKind::Modified, ChangeKind::Untracked]),
    );
    assert_eq!(plain(&prompt(Some(&data))), "[main @ 484c4c9670bb2 *? rebase] ");
}

#[test]
fn the_summary_holds_the_four_fields() {
    let data = on_main(
        OperationState::CherryPick,
        Some(vec![ChangeKind::Conflicted, ChangeKind::Added, ChangeKind::Conflicted]),
    );
    assert_eq!(
        data.summary(),
        Ok(Summary {
            branch: "main".to_string(),
            revision: Some("484c4c9670bb2".to_string()),
            status: Some("#+".to_string()),
            operation: Some("cherry-pick".to_string()),
        })
    );
}

#[test]
fn a_scan_that_could_not_be_made_gives_no_status() {
    let data = on_main(OperationState::Merge, None);
    assert_eq!(data.status(), None);
    assert_eq!(plain(&prompt(Some(&data))), "[main @ 484c4c9670bb2 merge] ");
}

#[test]
fn the_branch_is_the_short_name_of_head() {
    for name in ["main", "feature/prompt", "v1.0", "HEAD"] {
        let data = OutputData::new(Some(head(Some(name))), OperationState::Clean, None);
        assert_eq!(data.branch(), Ok(name.to_string()));
        assert_eq!(data.head().unwrap().shorthand, Some(name.to_string()));
    }
}

#[test]
fn outside_a_repository_nothing_is_printed() {
    assert_eq!(prompt(None), "");
    assert_eq!(Failure::NotARepository.fallback(), "");
}

#[test]
fn a_head_that_cannot_be_read() {
    let data = OutputData::new(
        None,
        OperationState::Merge,
        Some(vec![ChangeKind::Added]),
    );
    assert!(matches!(data.head(), Err(Failure::UnresolvableHead)));
    assert_eq!(data.branch(), Err(Failure::UnresolvableHead));
    assert_eq!(data.rev(), Err(Failure::UnresolvableHead));
    assert_eq!(data.summary(), Err(Failure::UnresolvableHead));
    assert_eq!(data.state(), Some("merge".to_string()));
    assert_eq!(data.status(), Some("+".to_string()));
    assert_eq!(prompt(Some(&data)), "\x1b[38;5;1m[no head] \x1b[0m");
    assert_eq!(Failure::UnresolvableHead.fallback(), "\x1b[38;5;1m[no head] \x1b[0m");
    assert_eq!(plain(&prompt(Some(&data))), "[no head] ");
}

#[test]
fn a_head_without_a_short_name() {
    let data = OutputData::new(
        Some(head(None)),
        OperationState::Clean,
        Some(vec![ChangeKind::Untracked]),
    );
    assert!(data.head().is_ok());
    assert_eq!(data.branch(), Err(Failure::MalformedBranchName));
    assert_eq!(data.rev(), Ok(Some("484c4c9670bb2".to_string())));
    assert_eq!(data.summary(), Err(Failure::MalformedBranchName));
    assert_eq!(prompt(Some(&data)), "???");
    assert_eq!(Failure::MalformedBranchName.fallback(), "???");
}

#[test]
fn an_empty_short_name_is_a_name() {
    let data = OutputData::new(Some(head(Some(""))), OperationState::Clean, None);
    assert_eq!(data.branch(), Ok(String::new()));
    assert_eq!(plain(&prompt(Some(&data))), "[ @ 484c4c9670bb2] ");
}

#[test]
fn the_operation_label_depends_on_the_operation_alone() {
    let states = [
        OperationState::Clean,
        OperationState::Merge,
        OperationState::Revert,
        OperationState::RevertSequence,
        OperationState::CherryPick,
        OperationState::CherryPickSequence,
        OperationState::Bisect,
        OperationState::Rebase,
        OperationState::RebaseInteractive,
        OperationState::RebaseMerge,
        OperationState::ApplyMailbox,
        OperationState::ApplyMailboxOrRebase,
    ];
    for state in states {
        let bare = OutputData::new(None, state, None);
        let full = OutputData::new(
            Some(head(Some("main"))),
            state,
            Some(vec![ChangeKind::Added, ChangeKind::Conflicted]),
        );
        assert_eq!(bare.state(), state.label());
        assert_eq!(full.state(), state.label());
    }
}

#[test]
fn the_revision_is_a_prefix_of_the_commit_id() {
    for full in [
        FULL,
        "0000000000000000000000000000000000000000",
        "ffffffffffffffffffffffffffffffffffffffff",
        "0123456789abcdef0123456789abcdef01234567",
    ] {
        let data = OutputData::new(
            Some(HeadReference::new(None, CommitId::parse(full).unwrap())),
            OperationState::Clean,
            None,
        );
        let revision = data.rev().unwrap().unwrap();
        assert_eq!(revision.chars().count(), 13);
        assert!(full.starts_with(&revision));
        assert_eq!(revision, full[..13]);
    }
}
