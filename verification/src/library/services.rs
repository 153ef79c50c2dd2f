//! The library as middleware of the agentic loop: which responses are
//! stored back, and how found context joins the system prompt.

use vstd::prelude::*;
use crate::text::{lowercase, to_lowercase, seq_contains, seq_starts_with, str_contains, str_starts_with};
use crate::library::librarian::TurnContext;
use crate::library::library::{is_blank, is_blank_text};

verus! {

/// Context for enriching a system prompt.
#[derive(Debug, Clone)]
pub struct LibraryContext {
    pub user_input: String,
    pub current_system_prompt: String,
    pub conversation_history: String,
    pub turn: usize,
}

/// Whether a response reads like an error message: in lower case it starts
/// with "error" or mentions "error communicating" or "failed to".
pub open spec fn is_error_response_spec(response: Seq<char>) -> bool {
    let lower = lowercase(response);
    seq_starts_with(lower, "error"@) || seq_contains(lower, "error communicating"@) || seq_contains(lower, "failed to"@)
}

/// Check if a response looks like an error message.
pub fn is_error_response(response: &str) -> (r: bool)
    ensures
        r == is_error_response_spec(response@),
{
    let lower = to_lowercase(response);
    str_starts_with(lower.as_str(), "error") || str_contains(lower.as_str(), "error communicating")
        || str_contains(lower.as_str(), "failed to")
}

/// What happens to a response after a turn.
#[derive(Debug)]
pub enum AfterResponse {
    /// Nothing is stored.
    Skip,
    /// The turn goes to the circulation desk for extraction.
    Enqueue(TurnContext),
    /// The question and answer are stored directly, with this text and topic.
    Store { text: String, topic: String },
}

/// The text a question-and-answer pair is stored as.
pub open spec fn qa_text(user_input: Seq<char>, response: Seq<char>) -> Seq<char> {
    "Q: "@ + user_input + "\nA: "@ + response
}

/// Decide what becomes of a response: nothing when storing is off, the
/// response is blank or reads like an error, or the library is not
/// initialized; otherwise an extraction job when a circulation desk is
/// configured, else the question-and-answer pair under the store topic.
pub fn after_response_action(
    store_responses: bool,
    initialized: bool,
    has_desk: bool,
    store_topic: &str,
    user_input: &str,
    response: &str,
) -> (r: AfterResponse)
    ensures
        (!store_responses || is_blank_text(response@) || is_error_response_spec(response@) || !initialized)
            ==> r is Skip,
        (store_responses && !is_blank_text(response@) && !is_error_response_spec(response@) && initialized) ==> (
            if has_desk {
                r matches AfterResponse::Enqueue(t) && t.user_input@ == user_input@ && t.response@ == response@
            } else {
                r matches AfterResponse::Store { text, topic } && text@ == qa_text(user_input@, response@)
                    && topic@ == store_topic@
            }),
{
    if !store_responses || is_blank(response) || is_error_response(response) || !initialized {
        return AfterResponse::Skip;
    }
    if has_desk {
        AfterResponse::Enqueue(TurnContext { user_input: user_input.to_owned(), response: response.to_owned() })
    } else {
        let mut text = "Q: ".to_owned();
        text.append(user_input);
        text.append("\nA: ");
        text.append(response);
        AfterResponse::Store { text, topic: store_topic.to_owned() }
    }
}

/// The system prompt with the memory block after it, separated by a blank
/// line; an empty block leaves the prompt unchanged.
pub fn enriched_prompt(current_system_prompt: &str, memory_block: &str) -> (r: String)
    ensures
        memory_block@.len() == 0 ==> r@ == current_system_prompt@,
        memory_block@.len() > 0 ==> r@ == current_system_prompt@ + "\n\n"@ + memory_block@,
{
    let mut p = current_system_prompt.to_owned();
    if !memory_block.is_empty() {
        p.append("\n\n");
        p.append(memory_block);
    }
    p
}

} // verus!
