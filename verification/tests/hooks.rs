use simse_core::hooks::{HookKind, HookSystem};

type Hooks = HookSystem<&'static str, u8, u8, u8, u8, u8>;

fn names(h: &Hooks) -> Vec<&'static str> {
    h.before_hooks().iter().map(|(_, n)| *n).collect()
}

#[test]
fn hooks_run_in_registration_order() {
    let mut h: Hooks = HookSystem::new();
    h.register_before("a");
    h.register_before("b");
    h.register_before("c");
    assert_eq!(names(&h), vec!["a", "b", "c"]);
}

#[test]
fn unregister_removes_only_that_hook() {
    let mut h: Hooks = HookSystem::new();
    let _a = h.register_before("a");
    let b = h.register_before("b");
    let _c = h.register_before("c");
    h.unregister(b);
    assert_eq!(names(&h), vec!["a", "c"]);
    h.unregister(b);
    assert_eq!(names(&h), vec!["a", "c"]);
}

#[test]
fn handles_are_distinct_across_kinds() {
    let mut h: Hooks = HookSystem::new();
    let a = h.register_before("a");
    let v = h.register_validate(1);
    assert_eq!(a.kind, HookKind::Before);
    assert_eq!(v.kind, HookKind::Validate);
    assert_ne!(a.id, v.id);
    h.unregister(v);
    assert_eq!(names(&h), vec!["a"]);
    assert!(h.validate_hooks().is_empty());
}

#[test]
fn clear_keeps_old_handles_from_matching_new_hooks() {
    let mut h: Hooks = HookSystem::new();
    let old = h.register_before("old");
    h.register_after(7);
    h.clear();
    assert!(h.before_hooks().is_empty());
    assert!(h.after_hooks().is_empty());
    h.register_before("new");
    h.unregister(old);
    assert_eq!(names(&h), vec!["new"]);
}

#[test]
fn every_kind_registers() {
    let mut h: Hooks = HookSystem::new();
    assert!(h.can_register());
    h.register_after(1);
    h.register_validate(2);
    h.register_prompt_transform(3);
    h.register_messages_transform(4);
    h.register_compacting(5);
    assert_eq!(h.after_hooks().len(), 1);
    assert_eq!(h.prompt_transform_hooks()[0].1, 3);
    assert_eq!(h.messages_transform_hooks()[0].1, 4);
    assert_eq!(h.compacting_hooks()[0].1, 5);
}
