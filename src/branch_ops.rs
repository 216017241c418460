//! The branch commands, and the decisions they make around the repository service.

use vstd::prelude::*;
use crate::text::str_eq;

verus! {

/// Check out a branch, creating it at the current commit if needed.
pub struct CheckoutOp(pub String);

/// Show the branch that is checked out.
pub struct CurrentOp;

/// Delete a branch.
pub struct DeleteOp(pub String);

/// List the local branches.
pub struct ListOp;

/// The full reference name of a local branch.
pub open spec fn branch_ref(branch: Seq<char>) -> Seq<char> {
    "refs/heads/"@ + branch
}

/// The full reference name of the local branch `branch`, which the
/// repository's HEAD points to when `branch` is checked out.
pub fn branch_ref_name(branch: &str) -> (r: String)
    ensures
        r@ == branch_ref(branch@),
{
    proof {
        reveal_strlit("refs/heads/");
    }
    let mut r = String::from_str("refs/heads/");
    r.append(branch);
    r
}

/// The line that lists branch `name`: marked when it is the `current` one.
pub open spec fn branch_line(name: Seq<char>, current: Seq<char>) -> Seq<char> {
    if name == current {
        name + " (current)"@
    } else {
        name
    }
}

/// The lines that list the branches `names`, in order, the checked-out one marked.
pub fn branch_list_lines(names: &Vec<String>, current: &str) -> (r: Vec<String>)
    ensures
        r@.len() == names@.len(),
        forall|i: int|
            0 <= i < names@.len() ==> (#[trigger] r@[i])@ == branch_line(names@[i]@, current@),
{
    proof {
        reveal_strlit(" (current)");
    }
    let mut r: Vec<String> = Vec::new();
    let mut i: usize = 0;
    while i < names.len()
        invariant
            i <= names@.len(),
            r@.len() == i,
            forall|k: int|
                0 <= k < i ==> (#[trigger] r@[k])@ == branch_line(names@[k]@, current@),
        decreases names@.len() - i,
    {
        let name = names[i].as_str();
        let mut line = String::from_str(name);
        if str_eq(name, current) {
            line.append(" (current)");
        }
        r.push(line);
        i = i + 1;
    }
    r
}

} // verus!
