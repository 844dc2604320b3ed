use paimon::error::PlanError;
use paimon::table_loader::{load_table_branch_choice, require_data_table, BranchChoice};

#[test]
fn branch_is_copied_unless_branches_system_table() {
    assert!(matches!(load_table_branch_choice(None, None), BranchChoice::Base));
    assert!(matches!(load_table_branch_choice(Some("snapshots"), None), BranchChoice::Base));
    match load_table_branch_choice(None, Some("dev")) {
        BranchChoice::CopyWithBranch(b) => assert_eq!(b, "dev"),
        other => panic!("unexpected: {other:?}"),
    }
    match load_table_branch_choice(Some("snapshots"), Some("dev")) {
        BranchChoice::CopyWithBranch(b) => assert_eq!(b, "dev"),
        other => panic!("unexpected: {other:?}"),
    }
    assert!(matches!(load_table_branch_choice(Some("branches"), Some("dev")), BranchChoice::Base));
    assert!(matches!(load_table_branch_choice(Some("BRANCHES"), Some("dev")), BranchChoice::Base));
}

#[test]
fn system_table_is_refused_where_data_table_is_required() {
    assert!(require_data_table(None, "COPY").is_ok());
    match require_data_table(Some("snapshots"), "full_text_search") {
        Err(PlanError::Plan(message)) => assert_eq!(message, "full_text_search requires a data table"),
        other => panic!("unexpected: {other:?}"),
    }
}
