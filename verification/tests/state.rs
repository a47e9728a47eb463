use git_prompt::state::OperationState;

fn label(state: OperationState) -> Option<String> {
    state.label()
}

#[test]
fn clean_has_no_label() {
    assert_eq!(label(OperationState::Clean), None);
}

#[test]
fn merge_label() {
    assert_eq!(label(OperationState::Merge), Some("merge".to_string()));
}

#[test]
fn revert_labels() {
    assert_eq!(label(OperationState::Revert), Some("revert".to_string()));
    assert_eq!(label(OperationState::RevertSequence), Some("revert".to_string()));
}

#[test]
fn cherry_pick_labels() {
    assert_eq!(label(OperationState::CherryPick), Some("cherry-pick".to_string()));
    assert_eq!(
        label(OperationState::CherryPickSequence),
        Some("cherry-pick".to_string())
    );
}

#[test]
fn bisect_label() {
    assert_eq!(label(OperationState::Bisect), Some("bisect".to_string()));
}

#[test]
fn rebase_labels() {
    assert_eq!(label(OperationState::Rebase), Some("rebase".to_string()));
    assert_eq!(label(OperationState::RebaseInteractive), Some("rebase".to_string()));
    assert_eq!(label(OperationState::RebaseMerge), Some("rebase-merge".to_string()));
}

#[test]
fn apply_mailbox_labels() {
    assert_eq!(label(OperationState::ApplyMailbox), Some("apply-mailbox".to_string()));
    assert_eq!(
        label(OperationState::ApplyMailboxOrRebase),
        Some("apply-mailbox".to_string())
    );
}

#[test]
fn the_same_state_gives_the_same_label() {
    let states = [
        OperationState::Clean,
        OperationState::Merge,
        OperationState::Revert,
        OperationState::RevertSequence,
        OperationState::CherryPick,
        OperationState::CherryPickSequence,
        OperationState::Bisect,
        OperationState::Rebase,
        OperationState::RebaseInteractive,
        OperationState::RebaseMerge,
        OperationState::ApplyMailbox,
        OperationState::ApplyMailboxOrRebase,
    ];
    for state in states {
        assert_eq!(state.label(), state.label());
        assert_eq!(state.label().is_none(), state == OperationState::Clean);
    }
}
