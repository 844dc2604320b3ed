//! Decisions of loading a table for reading: whether a branch copy is taken, and
//! whether a system table may stand where a data table is required.
use vstd::prelude::*;

use crate::error::PlanError;
use crate::text::{eq_ignore_ascii_case, str_eq_ignore_ascii_case};

verus! {

/// Which table a read of a parsed object name goes to.
#[derive(Debug)]
pub enum BranchChoice {
    /// The base table itself.
    Base,
    /// A copy of the base table on this branch.
    CopyWithBranch(String),
}

/// Chooses the table to read for an object name with an optional system table
/// and an optional branch: the branch copy when a branch is named, except for the
/// `branches` system table (in any ASCII case), which is read from the base table.
pub fn load_table_branch_choice(system_table: Option<&str>, branch: Option<&str>) -> (res: BranchChoice)
    ensures
        match branch {
            None => res is Base,
            Some(b) => if system_table matches Some(s) && eq_ignore_ascii_case(s@, "branches"@) {
                res is Base
            } else {
                res matches BranchChoice::CopyWithBranch(name) && name@ == b@
            },
        },
{
    match branch {
        None => BranchChoice::Base,
        Some(b) => {
            let is_branches_table = match system_table {
                Some(s) => str_eq_ignore_ascii_case(s, "branches"),
                None => false,
            };
            if is_branches_table {
                BranchChoice::Base
            } else {
                BranchChoice::CopyWithBranch(String::from_str(b))
            }
        },
    }
}

/// Refuses a system table where `caller` requires a data table.
pub fn require_data_table(system_table: Option<&str>, caller: &str) -> (res: Result<(), PlanError>)
    ensures
        match system_table {
            None => res is Ok,
            Some(_) => res matches Err(PlanError::Plan(message))
                && message@ == caller@ + " requires a data table"@,
        },
{
    match system_table {
        None => Ok(()),
        Some(_) => {
            let mut message = String::from_str(caller);
            message.append(" requires a data table");
            Err(PlanError::Plan(message))
        },
    }
}

} // verus!
