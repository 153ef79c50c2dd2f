use simse_core::permission::{
    resolve_permission, PermissionOption, PermissionOptionKind, PermissionOutcome, PermissionPolicy,
};

fn opt(id: &str, kind: PermissionOptionKind) -> PermissionOption {
    PermissionOption { option_id: id.to_string(), kind }
}

fn selected(r: Option<PermissionOutcome>) -> Option<String> {
    match r {
        Some(PermissionOutcome::Selected(id)) => Some(id),
        Some(PermissionOutcome::Cancelled) => None,
        None => panic!("expected an answer"),
    }
}

#[test]
fn auto_approve_prefers_allow_always() {
    let options = vec![
        opt("once", PermissionOptionKind::AllowOnce),
        opt("reject", PermissionOptionKind::RejectOnce),
        opt("always", PermissionOptionKind::AllowAlways),
    ];
    assert_eq!(selected(resolve_permission(PermissionPolicy::AutoApprove, &options)), Some("always".to_string()));
}

#[test]
fn auto_approve_falls_back_to_allow_once_then_first() {
    let options = vec![
        opt("reject", PermissionOptionKind::RejectOnce),
        opt("once", PermissionOptionKind::AllowOnce),
    ];
    assert_eq!(selected(resolve_permission(PermissionPolicy::AutoApprove, &options)), Some("once".to_string()));
    let only_reject = vec![opt("r1", PermissionOptionKind::RejectAlways), opt("r2", PermissionOptionKind::RejectOnce)];
    assert_eq!(selected(resolve_permission(PermissionPolicy::AutoApprove, &only_reject)), Some("r1".to_string()));
    assert_eq!(selected(resolve_permission(PermissionPolicy::AutoApprove, &[])), None);
}

#[test]
fn deny_prefers_reject_once_and_may_cancel() {
    let options = vec![
        opt("always", PermissionOptionKind::RejectAlways),
        opt("once", PermissionOptionKind::RejectOnce),
    ];
    assert_eq!(selected(resolve_permission(PermissionPolicy::Deny, &options)), Some("once".to_string()));
    let allow_only = vec![opt("a", PermissionOptionKind::AllowOnce)];
    assert_eq!(selected(resolve_permission(PermissionPolicy::Deny, &allow_only)), None);
}

#[test]
fn prompt_leaves_the_request_open() {
    let options = vec![opt("a", PermissionOptionKind::AllowOnce)];
    assert!(resolve_permission(PermissionPolicy::Prompt, &options).is_none());
}
