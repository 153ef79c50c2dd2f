use simse_core::library::librarian_def::{
    default_definition, matches_topic, split_topic, validate_definition, LibrarianAcp,
};

fn pats(p: &[&str]) -> Vec<String> {
    p.iter().map(|s| s.to_string()).collect()
}

#[test]
fn topic_matching_examples() {
    assert!(matches_topic(&pats(&["code/*"]), "code/react"));
    assert!(matches_topic(&pats(&["code/**"]), "code/react/hooks"));
    assert!(matches_topic(&pats(&["**"]), "anything/at/all"));
    assert!(!matches_topic(&pats(&["code/*"]), "code/react/hooks"));
    assert!(matches_topic(&pats(&["code/**"]), "code"));
    assert!(!matches_topic(&pats(&["docs/*", "code/*"]), "misc/x"));
    assert!(matches_topic(&pats(&["docs/*", "code/*"]), "code/x"));
    assert!(matches_topic(&pats(&["a/**/z"]), "a/b/c/z"));
    assert!(!matches_topic(&pats(&["a/**/z"]), "a/b/c"));
    assert!(!matches_topic(&[], "a"));
}

#[test]
fn split_topic_segments() {
    assert_eq!(split_topic("a/b"), vec!["a", "b"]);
    assert_eq!(split_topic(""), vec![""]);
    assert_eq!(split_topic("a/"), vec!["a", ""]);
}

#[test]
fn default_definition_is_valid() {
    let d = default_definition();
    assert_eq!(d.name, "default");
    assert_eq!(d.topics, vec!["**".to_string()]);
    let r = validate_definition(&d);
    assert!(r.valid);
    assert!(r.errors.is_empty());
}

#[test]
fn invalid_definition_lists_every_error() {
    let mut d = default_definition();
    d.name = "Not Kebab".to_string();
    d.description = String::new();
    d.topics = vec![];
    d.escalate_at_positive = false;
    d.acp = Some(LibrarianAcp { command: String::new(), args: None, agent_id: None });
    let r = validate_definition(&d);
    assert!(!r.valid);
    assert_eq!(
        r.errors,
        vec![
            "name must be kebab-case (lowercase alphanumeric and hyphens, starting with alphanumeric)",
            "description must be a non-empty string",
            "topics must be a non-empty array of strings",
            "thresholds.escalateAt must be a positive number",
            "acp.command must be a non-empty string",
        ]
    );
    d.name = String::new();
    assert_eq!(validate_definition(&d).errors[0], "name must be a non-empty string");
}
