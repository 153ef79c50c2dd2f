use simse_core::prompts::builder::{PromptMode, SystemPromptBuildContext, SystemPromptBuilder};

#[test]
fn from_context_without_mode_builds_in_build_mode() {
    let ctx = SystemPromptBuildContext::default();
    let built = SystemPromptBuilder::from_context(&ctx).build();
    let expected = format!("You are a software development assistant.\n\n{}", PromptMode::Build.default_instructions());
    assert_eq!(built, expected);
}

#[test]
fn from_context_keeps_given_mode() {
    let ctx = SystemPromptBuildContext { mode: Some(PromptMode::Plan), ..SystemPromptBuildContext::default() };
    let built = SystemPromptBuilder::from_context(&ctx).build();
    let expected = format!("You are a software development assistant.\n\n{}", PromptMode::Plan.default_instructions());
    assert_eq!(built, expected);
}
