use simse_core::prompts::provider::{glob_regex_text, glob_to_regex};

#[test]
fn glob_to_regex_simple() {
    let re = glob_to_regex("sonnet-*").unwrap();
    assert!(re.is_match("sonnet-3-opus"));
    assert!(re.is_match("sonnet-instant"));
    assert!(!re.is_match("gpt-4"));
}

#[test]
fn glob_to_regex_exact() {
    let re = glob_to_regex("gpt-4").unwrap();
    assert!(re.is_match("gpt-4"));
    assert!(!re.is_match("gpt-4-turbo"));
}

#[test]
fn glob_to_regex_dots_escaped() {
    let re = glob_to_regex("model.v1").unwrap();
    assert!(re.is_match("model.v1"));
    assert!(!re.is_match("modelXv1"));
}

#[test]
fn glob_regex_text_escapes_and_anchors() {
    assert_eq!(glob_regex_text("a*b?.c"), "^a.*b.\\.c$");
    assert_eq!(glob_regex_text(""), "^$");
}
