//! Provider-specific prompt resolution.
//!
//! Model IDs are matched against glob patterns (`*` any sequence, `?` any
//! single character); the first matching pattern's prompt wins, else the
//! default prompt, else an empty string. Known provider names also have
//! static prompt preambles.

use vstd::prelude::*;
use regex::Regex;
use crate::text::{chars_of, push_char, str_eq};

verus! {

/// `regex::Regex` is held opaquely.
#[verifier::external_type_specification]
#[verifier::external_body]
pub struct ExRegex(regex::Regex);

/// Names whether a regular expression source compiles (`Regex::new` is `Ok`).
pub uninterp spec fn regex_compiles(source: Seq<char>) -> bool;

/// Names whether the regular expression compiled from `source` matches
/// somewhere in `text` (`Regex::is_match`); false when it does not compile.
pub uninterp spec fn regex_is_match(source: Seq<char>, text: Seq<char>) -> bool;

/// Calls `Regex::new`, keeping the compiled expression when it compiles.
#[verifier::external_body]
fn compile_regex(source: &str) -> (r: Option<Regex>)
    ensures
        r is Some <==> regex_compiles(source@),
{
    Regex::new(source).ok()
}

/// Calls `Regex::new` on `source` and `Regex::is_match` on `text`.
#[verifier::external_body]
pub(crate) fn source_is_match(source: &str, text: &str) -> (r: bool)
    ensures
        r == regex_is_match(source@, text@),
{
    Regex::new(source).map(|re| re.is_match(text)).unwrap_or(false)
}

/// Whether a character is special in a regular expression.
pub open spec fn is_regex_special(c: char) -> bool {
    c == '.' || c == '+' || c == '^' || c == '$' || c == '{' || c == '}' || c == '(' || c == ')'
        || c == '|' || c == '[' || c == ']' || c == '\\'
}

/// The regular expression text of one glob character.
pub open spec fn glob_char_regex(c: char) -> Seq<char> {
    if c == '*' {
        seq!['.', '*']
    } else if c == '?' {
        seq!['.']
    } else if is_regex_special(c) {
        seq!['\\', c]
    } else {
        seq![c]
    }
}

/// The regular expression text of a glob body.
pub open spec fn glob_body_regex(p: Seq<char>) -> Seq<char>
    decreases p.len(),
{
    if p.len() == 0 {
        Seq::empty()
    } else {
        glob_body_regex(p.drop_last()) + glob_char_regex(p.last())
    }
}

/// The anchored regular expression of a glob pattern.
pub open spec fn glob_regex_source(pattern: Seq<char>) -> Seq<char> {
    seq!['^'] + glob_body_regex(pattern) + seq!['$']
}

/// The regular expression text for a glob pattern: `*` becomes `.*`, `?`
/// becomes `.`, other special characters are escaped, anchored at both ends.
pub fn glob_regex_text(pattern: &str) -> (r: String)
    ensures
        r@ == glob_regex_source(pattern@),
{
    let cs = chars_of(pattern);
    let mut s = String::new();
    push_char(&mut s, '^');
    let mut i: usize = 0;
    while i < cs.len()
        invariant
            i <= cs@.len(),
            cs@ == pattern@,
            s@ == seq!['^'] + glob_body_regex(cs@.take(i as int)),
        decreases cs@.len() - i,
    {
        let c = cs[i];
        if c == '*' {
            push_char(&mut s, '.');
            push_char(&mut s, '*');
        } else if c == '?' {
            push_char(&mut s, '.');
        } else if c == '.' || c == '+' || c == '^' || c == '$' || c == '{' || c == '}' || c == '(' || c == ')'
            || c == '|' || c == '[' || c == ']' || c == '\\' {
            push_char(&mut s, '\\');
            push_char(&mut s, c);
        } else {
            push_char(&mut s, c);
        }
        assert(cs@.take(i + 1).drop_last() =~= cs@.take(i as int));
        assert(s@ =~= seq!['^'] + glob_body_regex(cs@.take(i + 1)));
        i = i + 1;
    }
    push_char(&mut s, '$');
    assert(cs@.take(cs@.len() as int) =~= cs@);
    s
}

/// Convert a simple glob pattern to a compiled regular expression (`None`
/// when it does not compile).
pub fn glob_to_regex(pattern: &str) -> (r: Option<Regex>)
    ensures
        r is Some <==> regex_compiles(glob_regex_source(pattern@)),
{
    let source = glob_regex_text(pattern);
    compile_regex(source.as_str())
}

/// Configuration for provider-specific prompts: `(glob pattern, prompt)`
/// pairs (first match wins) and a fallback prompt.
#[derive(Debug, Clone)]
pub struct ProviderPromptConfig {
    pub prompts: Vec<(String, String)>,
    pub default_prompt: Option<String>,
}

/// The resolver's entries for the first `n` configured prompts: the pairs
/// whose pattern compiles, as (regular expression text, prompt).
pub open spec fn compiled_entries(prompts: Seq<(String, String)>, n: nat) -> Seq<(Seq<char>, Seq<char>)>
    decreases n,
{
    if n == 0 || n > prompts.len() {
        Seq::empty()
    } else {
        let prev = compiled_entries(prompts, (n - 1) as nat);
        let src = glob_regex_source(prompts[n - 1].0@);
        if regex_compiles(src) {
            prev.push((src, prompts[n - 1].1@))
        } else {
            prev
        }
    }
}

/// The prompt of the first entry whose expression matches, else the default.
pub open spec fn resolve_spec(entries: Seq<(Seq<char>, Seq<char>)>, default_prompt: Seq<char>, model_id: Seq<char>) -> Seq<char>
    decreases entries.len(),
{
    if entries.len() == 0 {
        default_prompt
    } else if regex_is_match(entries[0].0, model_id) {
        entries[0].1
    } else {
        resolve_spec(entries.drop_first(), default_prompt, model_id)
    }
}

/// Resolves a model ID to the best-matching provider prompt.
pub struct ProviderPromptResolver {
    entries: Vec<(String, String)>,
    default_prompt: String,
}

impl ProviderPromptResolver {
    pub closed spec fn entries_view(&self) -> Seq<(Seq<char>, Seq<char>)> {
        self.entries@.map_values(|e: (String, String)| (e.0@, e.1@))
    }

    pub closed spec fn default_view(&self) -> Seq<char> {
        self.default_prompt@
    }

    /// A resolver for the configured patterns that compile, in order.
    pub fn new(config: ProviderPromptConfig) -> (r: Self)
        ensures
            r.entries_view() == compiled_entries(config.prompts@, config.prompts@.len()),
            r.default_view() == (match config.default_prompt { Some(d) => d@, None => Seq::<char>::empty() }),
    {
        let mut entries: Vec<(String, String)> = Vec::new();
        let mut i: usize = 0;
        while i < config.prompts.len()
            invariant
                i <= config.prompts@.len(),
                entries@.map_values(|e: (String, String)| (e.0@, e.1@)) == compiled_entries(config.prompts@, i as nat),
            decreases config.prompts@.len() - i,
        {
            let source = glob_regex_text(config.prompts[i].0.as_str());
            let ghost before = entries@;
            match compile_regex(source.as_str()) {
                Some(_) => {
                    entries.push((source, config.prompts[i].1.clone()));
                    assert(entries@.map_values(|e: (String, String)| (e.0@, e.1@)) =~=
                        before.map_values(|e: (String, String)| (e.0@, e.1@)).push((glob_regex_source(config.prompts@[i as int].0@), config.prompts@[i as int].1@)));
                },
                None => {},
            }
            i = i + 1;
        }
        let default_prompt = match &config.default_prompt {
            Some(d) => d.clone(),
            None => String::new(),
        };
        ProviderPromptResolver { entries, default_prompt }
    }

    /// The prompt for the first pattern matching `model_id`, else the default.
    pub fn resolve(&self, model_id: &str) -> (r: &str)
        ensures
            r@ == resolve_spec(self.entries_view(), self.default_view(), model_id@),
    {
        let mut i: usize = 0;
        assert(self.entries_view().skip(0) =~= self.entries_view());
        while i < self.entries.len()
            invariant
                i <= self.entries@.len(),
                resolve_spec(self.entries_view(), self.default_view(), model_id@)
                    == resolve_spec(self.entries_view().skip(i as int), self.default_view(), model_id@),
            decreases self.entries@.len() - i,
        {
            let ghost rest = self.entries_view().skip(i as int);
            assert(rest[0] == (self.entries@[i as int].0@, self.entries@[i as int].1@));
            if source_is_match(self.entries[i].0.as_str(), model_id) {
                return self.entries[i].1.as_str();
            }
            assert(rest.drop_first() =~= self.entries_view().skip(i + 1));
            i = i + 1;
        }
        self.default_prompt.as_str()
    }
}

pub const ANTHROPIC_PROMPT: &'static str = "You are an AI assistant made by Anthropic. You are a helpful, harmless, and honest AI assistant. Follow instructions carefully and think step by step.";

pub const OPENAI_PROMPT: &'static str = "You are a helpful AI assistant powered by OpenAI. Follow instructions carefully and provide accurate, well-structured responses.";

pub const GOOGLE_PROMPT: &'static str = "You are a helpful AI assistant powered by Google. Follow instructions carefully and provide accurate, well-structured responses.";

pub const COHERE_PROMPT: &'static str = "You are a helpful AI assistant powered by Cohere. Follow instructions carefully and provide accurate, well-structured responses.";

/// The static prompt of a known provider name (`anthropic`, `openai`,
/// `google`, `cohere`); empty for any other name.
pub open spec fn provider_prompt_spec(provider: Seq<char>) -> Seq<char> {
    if provider == "anthropic"@ {
        ANTHROPIC_PROMPT@
    } else if provider == "openai"@ {
        OPENAI_PROMPT@
    } else if provider == "google"@ {
        GOOGLE_PROMPT@
    } else if provider == "cohere"@ {
        COHERE_PROMPT@
    } else {
        ""@
    }
}

/// Returns the static prompt string for a known provider name.
pub fn provider_prompt(provider: &str) -> (r: &'static str)
    ensures
        r@ == provider_prompt_spec(provider@),
{
    if str_eq(provider, "anthropic") {
        ANTHROPIC_PROMPT
    } else if str_eq(provider, "openai") {
        OPENAI_PROMPT
    } else if str_eq(provider, "google") {
        GOOGLE_PROMPT
    } else if str_eq(provider, "cohere") {
        COHERE_PROMPT
    } else {
        ""
    }
}

} // verus!
