use simse_core::error::{LibraryErrorCode, SimseError};
use simse_core::library::library::{
    check_batch_embeddings, check_batch_texts, check_compendium, check_single_embedding, check_text,
    compendium_prompt, ensure_initialized, is_blank, missing_volume, sorted_distinct, summarized_from,
};
use simse_core::text::str_less;

fn library_error(r: Result<(), SimseError>) -> (LibraryErrorCode, String) {
    match r {
        Err(SimseError::Library { code, message }) => (code, message),
        _ => panic!("expected a library error"),
    }
}

#[test]
fn blank_texts_are_refused() {
    assert!(is_blank(""));
    assert!(is_blank(" \t\n\u{a0}\u{3000}"));
    assert!(!is_blank("  a "));
    assert!(check_text("hello").is_ok());
    let (code, message) = library_error(check_text("   "));
    assert_eq!(code, LibraryErrorCode::EmptyText);
    assert_eq!(message, "Cannot add empty or whitespace-only text to library");
}

#[test]
fn uninitialized_library_refuses() {
    assert!(ensure_initialized(true).is_ok());
    let (code, message) = library_error(ensure_initialized(false));
    assert_eq!(code, LibraryErrorCode::NotInitialized);
    assert_eq!(message, "Library has not been initialized. Call initialize() first.");
}

#[test]
fn batch_reports_first_blank_text() {
    let texts = vec!["a".to_string(), " ".to_string(), "".to_string()];
    let (_, message) = library_error(check_batch_texts(&texts));
    assert_eq!(message, "Cannot add empty or whitespace-only text to library (batch index 1)");
    assert!(check_batch_texts(&["x".to_string()]).is_ok());
}

#[test]
fn batch_embeddings_checked() {
    assert!(check_batch_embeddings(&[3, 3], 2).is_ok());
    let (code, message) = library_error(check_batch_embeddings(&[3], 2));
    assert_eq!(code, LibraryErrorCode::EmbeddingFailed);
    assert_eq!(message, "Embedding provider returned 1 embeddings for 2 inputs");
    let (_, message) = library_error(check_batch_embeddings(&[3, 0, 0], 3));
    assert_eq!(message, "Embedding provider returned an empty embedding vector at index 1");
}

#[test]
fn single_embedding_checked() {
    assert!(check_single_embedding(Some(4)).is_ok());
    assert_eq!(library_error(check_single_embedding(None)).1, "Embedding provider returned no embeddings");
    assert_eq!(library_error(check_single_embedding(Some(0))).1, "Embedding provider returned an empty embedding vector");
}

#[test]
fn compendium_preconditions() {
    assert!(check_compendium(true, 2).is_ok());
    let (code, _) = library_error(check_compendium(false, 5));
    assert_eq!(code, LibraryErrorCode::NotInitialized);
    let (code, message) = library_error(check_compendium(true, 1));
    assert_eq!(code, LibraryErrorCode::InvalidInput);
    assert_eq!(message, "Compendium requires at least 2 volume IDs");
    match missing_volume("v9") {
        SimseError::Library { code, message } => {
            assert_eq!(code, LibraryErrorCode::NotFound);
            assert_eq!(message, "Volume \"v9\" not found for compendium");
        }
        _ => panic!("expected a library error"),
    }
}

#[test]
fn compendium_prompt_and_metadata() {
    let texts = vec!["alpha".to_string(), "beta".to_string()];
    assert_eq!(
        compendium_prompt(Some("Sum up:"), &texts),
        "Sum up:\n\n--- Volume 1 ---\nalpha\n\n--- Volume 2 ---\nbeta"
    );
    assert!(compendium_prompt(None, &texts).starts_with("Summarize the following volumes into a single concise summary"));
    assert_eq!(summarized_from(&["a".to_string(), "b".to_string()]), "a,b");
}

#[test]
fn shelves_sorted_and_distinct() {
    let names: Vec<String> = ["notes", "alpha", "notes", "Zed", "alp", "ü"].iter().map(|s| s.to_string()).collect();
    let mut expected = names.clone();
    expected.sort();
    expected.dedup();
    assert_eq!(sorted_distinct(&names), expected);
    assert!(sorted_distinct(&[]).is_empty());
    assert!(str_less("abc", "abd"));
    assert!(str_less("ab", "abc"));
    assert!(!str_less("abc", "abc"));
}

use simse_core::library::services::{after_response_action, enriched_prompt, is_error_response, AfterResponse};

#[test]
fn error_responses_recognized() {
    assert!(is_error_response("ERROR: upstream"));
    assert!(is_error_response("There was an Error communicating with the model"));
    assert!(is_error_response("I Failed To parse"));
    assert!(!is_error_response("All good"));
}

#[test]
fn after_response_decisions() {
    assert!(matches!(after_response_action(false, true, false, "conversation", "q", "a"), AfterResponse::Skip));
    assert!(matches!(after_response_action(true, true, false, "conversation", "q", "  "), AfterResponse::Skip));
    assert!(matches!(after_response_action(true, true, false, "conversation", "q", "Error: x"), AfterResponse::Skip));
    assert!(matches!(after_response_action(true, false, false, "conversation", "q", "a"), AfterResponse::Skip));
    match after_response_action(true, true, true, "conversation", "q", "a") {
        AfterResponse::Enqueue(t) => {
            assert_eq!(t.user_input, "q");
            assert_eq!(t.response, "a");
        }
        _ => panic!("expected Enqueue"),
    }
    match after_response_action(true, true, false, "conversation", "What?", "This.") {
        AfterResponse::Store { text, topic } => {
            assert_eq!(text, "Q: What?\nA: This.");
            assert_eq!(topic, "conversation");
        }
        _ => panic!("expected Store"),
    }
}

#[test]
fn enriched_prompt_appends_block() {
    assert_eq!(enriched_prompt("sys", ""), "sys");
    assert_eq!(enriched_prompt("sys", "<memory-context>x</memory-context>"), "sys\n\n<memory-context>x</memory-context>");
}

use simse_core::library::librarian::{librarian_identity, LibrarianOptions};

#[test]
fn librarian_identity_defaults() {
    let (name, purpose) = librarian_identity(None);
    assert_eq!(name, "default");
    assert_eq!(purpose, "General-purpose librarian");
    let (name, purpose) = librarian_identity(Some(LibrarianOptions { name: Some("code".into()), purpose: None }));
    assert_eq!(name, "code");
    assert_eq!(purpose, "General-purpose librarian");
}
