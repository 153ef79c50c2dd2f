//! Answering an agent's permission requests: under a policy, which of the
//! options the agent offers is selected on the user's behalf.

use vstd::prelude::*;

verus! {

/// How permission requests from the agent are answered.
#[derive(Debug, Clone, Copy, PartialEq, Eq, Structural)]
pub enum PermissionPolicy {
    /// Select an allowing option.
    AutoApprove,
    /// Select a rejecting option.
    Deny,
    /// Leave the decision to the user.
    Prompt,
}

/// The kind of an option the agent offers.
#[derive(Debug, Clone, Copy, PartialEq, Eq, Structural)]
pub enum PermissionOptionKind {
    AllowOnce,
    AllowAlways,
    RejectOnce,
    RejectAlways,
}

/// One option of a permission request.
#[derive(Debug, Clone)]
pub struct PermissionOption {
    pub option_id: String,
    pub kind: PermissionOptionKind,
}

/// The answer to a permission request.
#[derive(Debug, Clone)]
pub enum PermissionOutcome {
    /// The option with this id was selected.
    Selected(String),
    /// No option was selected.
    Cancelled,
}

/// Whether `i` is the first position of an option of kind `k`.
pub open spec fn is_first_of_kind(s: Seq<PermissionOption>, k: PermissionOptionKind, i: int) -> bool {
    &&& 0 <= i < s.len()
    &&& s[i].kind == k
    &&& forall|j: int| 0 <= j < i ==> s[j].kind != k
}

/// The first position of an option of kind `k`, or -1.
pub open spec fn first_of_kind(s: Seq<PermissionOption>, k: PermissionOptionKind) -> int {
    if exists|i: int| is_first_of_kind(s, k, i) {
        choose|i: int| is_first_of_kind(s, k, i)
    } else {
        -1
    }
}

/// The position of the option a policy selects, or -1 for none: auto
/// approval prefers "allow always", then "allow once", then the first
/// option; denial prefers "reject once", then "reject always".
pub open spec fn selected_index(policy: PermissionPolicy, s: Seq<PermissionOption>) -> int {
    match policy {
        PermissionPolicy::AutoApprove => {
            if first_of_kind(s, PermissionOptionKind::AllowAlways) >= 0 {
                first_of_kind(s, PermissionOptionKind::AllowAlways)
            } else if first_of_kind(s, PermissionOptionKind::AllowOnce) >= 0 {
                first_of_kind(s, PermissionOptionKind::AllowOnce)
            } else if s.len() > 0 {
                0
            } else {
                -1
            }
        },
        PermissionPolicy::Deny => {
            if first_of_kind(s, PermissionOptionKind::RejectOnce) >= 0 {
                first_of_kind(s, PermissionOptionKind::RejectOnce)
            } else {
                first_of_kind(s, PermissionOptionKind::RejectAlways)
            }
        },
        PermissionPolicy::Prompt => -1,
    }
}

/// The position of the first option of kind `k`.
fn find_kind(options: &[PermissionOption], k: PermissionOptionKind) -> (r: Option<usize>)
    ensures
        match r {
            Some(i) => first_of_kind(options@, k) == i,
            None => first_of_kind(options@, k) == -1,
        },
{
    let mut i: usize = 0;
    while i < options.len()
        invariant
            i <= options.len(),
            forall|j: int| 0 <= j < i ==> options@[j].kind != k,
        decreases options.len() - i,
    {
        if options[i].kind == k {
            proof {
                assert(is_first_of_kind(options@, k, i as int));
                let c = first_of_kind(options@, k);
                assert(is_first_of_kind(options@, k, c));
                if c < i {
                    assert(options@[c].kind != k);
                } else if c > i {
                    assert(options@[i as int].kind != k);
                }
            }
            return Some(i);
        }
        i += 1;
    }
    assert(!(exists|j: int| is_first_of_kind(options@, k, j)));
    None
}

/// Answer a permission request under `policy`; `Prompt` answers nothing,
/// leaving the request to the user.
pub fn resolve_permission(policy: PermissionPolicy, options: &[PermissionOption]) -> (r: Option<PermissionOutcome>)
    ensures
        policy == PermissionPolicy::Prompt ==> r is None,
        policy != PermissionPolicy::Prompt ==> match r {
            Some(PermissionOutcome::Selected(id)) => {
                let i = selected_index(policy, options@);
                0 <= i < options@.len() && id@ == options@[i].option_id@
            },
            Some(PermissionOutcome::Cancelled) => selected_index(policy, options@) < 0,
            None => false,
        },
{
    let chosen: Option<usize> = match policy {
        PermissionPolicy::AutoApprove => {
            match find_kind(options, PermissionOptionKind::AllowAlways) {
                Some(i) => Some(i),
                None => match find_kind(options, PermissionOptionKind::AllowOnce) {
                    Some(i) => Some(i),
                    None => if options.len() > 0 { Some(0) } else { None },
                },
            }
        },
        PermissionPolicy::Deny => {
            match find_kind(options, PermissionOptionKind::RejectOnce) {
                Some(i) => Some(i),
                None => find_kind(options, PermissionOptionKind::RejectAlways),
            }
        },
        PermissionPolicy::Prompt => return None,
    };
    match chosen {
        Some(i) => Some(PermissionOutcome::Selected(options[i].option_id.clone())),
        None => Some(PermissionOutcome::Cancelled),
    }
}

} // verus!
