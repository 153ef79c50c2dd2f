//! The rules of the library around its vector store: which texts may be
//! added, what the embedding provider must hand back, how a compendium of
//! several volumes is asked for and recorded, and which shelves exist.

use vstd::prelude::*;
use std::collections::HashMap;
use crate::error::{SimseError, LibraryErrorCode};
use crate::text::{decimal, push_decimal, join_seqs, views_of, join_strings, chars_less, str_less, str_eq, lemma_chars_less_transitive, lemma_chars_less_total};
use crate::library::librarian::{numbered_volumes, volume_blocks};

verus! {

/// Whether a character has the Unicode `White_Space` property (the property
/// that `char::is_whitespace` tests).
pub open spec fn is_white_space(c: char) -> bool {
    ||| ('\u{9}' <= c && c <= '\u{d}')
    ||| c == ' '
    ||| c == '\u{85}'
    ||| c == '\u{a0}'
    ||| c == '\u{1680}'
    ||| ('\u{2000}' <= c && c <= '\u{200a}')
    ||| c == '\u{2028}'
    ||| c == '\u{2029}'
    ||| c == '\u{202f}'
    ||| c == '\u{205f}'
    ||| c == '\u{3000}'
}

/// Whether a text is empty or only whitespace (what trimming it leaves is
/// empty).
pub open spec fn is_blank_text(s: Seq<char>) -> bool {
    forall|i: int| 0 <= i < s.len() ==> is_white_space(#[trigger] s[i])
}

fn white_space(c: char) -> (r: bool)
    ensures
        r == is_white_space(c),
{
    ('\u{9}' <= c && c <= '\u{d}') || c == ' ' || c == '\u{85}' || c == '\u{a0}' || c == '\u{1680}'
        || ('\u{2000}' <= c && c <= '\u{200a}') || c == '\u{2028}' || c == '\u{2029}' || c == '\u{202f}'
        || c == '\u{205f}' || c == '\u{3000}'
}

/// Whether a text is empty or only whitespace.
pub fn is_blank(s: &str) -> (r: bool)
    ensures
        r == is_blank_text(s@),
{
    let cs = crate::text::chars_of(s);
    let mut i: usize = 0;
    while i < cs.len()
        invariant
            i <= cs.len(),
            cs@ == s@,
            forall|j: int| 0 <= j < i ==> is_white_space(#[trigger] cs@[j]),
        decreases cs.len() - i,
    {
        if !white_space(cs[i]) {
            return false;
        }
        i += 1;
    }
    true
}

/// Whether `r` is a library error with this code and message.
pub open spec fn is_library_error(r: SimseError, code: LibraryErrorCode, message: Seq<char>) -> bool {
    r matches SimseError::Library { code: c, message: m } && c == code && m@ == message
}

/// The library refuses every operation until it is initialized.
pub fn ensure_initialized(initialized: bool) -> (r: Result<(), SimseError>)
    ensures
        r is Ok <==> initialized,
        r matches Err(e) ==> is_library_error(e, LibraryErrorCode::NotInitialized,
            "Library has not been initialized. Call initialize() first."@),
{
    if !initialized {
        return Err(SimseError::library(
            LibraryErrorCode::NotInitialized,
            "Library has not been initialized. Call initialize() first.",
        ));
    }
    Ok(())
}

/// A text may be added unless it is empty or only whitespace.
pub fn check_text(text: &str) -> (r: Result<(), SimseError>)
    ensures
        r is Ok <==> !is_blank_text(text@),
        r matches Err(e) ==> is_library_error(e, LibraryErrorCode::EmptyText,
            "Cannot add empty or whitespace-only text to library"@),
{
    if is_blank(text) {
        return Err(SimseError::library(
            LibraryErrorCode::EmptyText,
            "Cannot add empty or whitespace-only text to library",
        ));
    }
    Ok(())
}

/// The error for a blank text at position `i` of a batch.
pub open spec fn blank_in_batch_message(i: nat) -> Seq<char> {
    "Cannot add empty or whitespace-only text to library (batch index "@ + decimal(i) + ")"@
}

/// A batch may be added when none of its texts is blank; otherwise the
/// first blank one is reported.
pub fn check_batch_texts(texts: &[String]) -> (r: Result<(), SimseError>)
    ensures
        r is Ok <==> forall|i: int| 0 <= i < texts@.len() ==> !is_blank_text(#[trigger] texts@[i]@),
        r matches Err(e) ==> exists|i: int| 0 <= i < texts@.len() && is_blank_text(texts@[i]@)
            && (forall|j: int| 0 <= j < i ==> !is_blank_text(#[trigger] texts@[j]@))
            && is_library_error(e, LibraryErrorCode::EmptyText, blank_in_batch_message(i as nat)),
{
    let mut i: usize = 0;
    while i < texts.len()
        invariant
            i <= texts.len(),
            forall|j: int| 0 <= j < i ==> !is_blank_text(#[trigger] texts@[j]@),
        decreases texts.len() - i,
    {
        if is_blank(texts[i].as_str()) {
            let mut m = "Cannot add empty or whitespace-only text to library (batch index ".to_owned();
            push_decimal(&mut m, i);
            m.append(")");
            return Err(SimseError::Library { code: LibraryErrorCode::EmptyText, message: m });
        }
        i += 1;
    }
    Ok(())
}

/// The error for a short answer of the embedding provider.
pub open spec fn embedding_count_message(got: nat, wanted: nat) -> Seq<char> {
    "Embedding provider returned "@ + decimal(got) + " embeddings for "@ + decimal(wanted) + " inputs"@
}

/// The error for an empty embedding at position `i`.
pub open spec fn empty_embedding_message(i: nat) -> Seq<char> {
    "Embedding provider returned an empty embedding vector at index "@ + decimal(i)
}

/// The embeddings of a batch (given by their lengths) are usable when there
/// is one for each input and none is empty.
pub fn check_batch_embeddings(lengths: &[usize], inputs: usize) -> (r: Result<(), SimseError>)
    ensures
        r is Ok <==> lengths@.len() >= inputs && forall|i: int| 0 <= i < lengths@.len() ==> #[trigger] lengths@[i] > 0,
        lengths@.len() < inputs ==> (r matches Err(e) && is_library_error(e, LibraryErrorCode::EmbeddingFailed,
            embedding_count_message(lengths@.len(), inputs as nat))),
        lengths@.len() >= inputs ==> (r matches Err(e) ==> exists|i: int| 0 <= i < lengths@.len() && lengths@[i] == 0
            && (forall|j: int| 0 <= j < i ==> #[trigger] lengths@[j] > 0)
            && is_library_error(e, LibraryErrorCode::EmbeddingFailed, empty_embedding_message(i as nat))),
{
    if lengths.len() < inputs {
        let mut m = "Embedding provider returned ".to_owned();
        push_decimal(&mut m, lengths.len());
        m.append(" embeddings for ");
        push_decimal(&mut m, inputs);
        m.append(" inputs");
        return Err(SimseError::Library { code: LibraryErrorCode::EmbeddingFailed, message: m });
    }
    let mut i: usize = 0;
    while i < lengths.len()
        invariant
            i <= lengths.len(),
            lengths@.len() >= inputs,
            forall|j: int| 0 <= j < i ==> #[trigger] lengths@[j] > 0,
        decreases lengths.len() - i,
    {
        if lengths[i] == 0 {
            let mut m = "Embedding provider returned an empty embedding vector at index ".to_owned();
            push_decimal(&mut m, i);
            return Err(SimseError::Library { code: LibraryErrorCode::EmbeddingFailed, message: m });
        }
        i += 1;
    }
    Ok(())
}

/// The embedding of a single text (given by the length of the first vector
/// returned, if any) is usable when there is one and it is not empty.
pub fn check_single_embedding(first_length: Option<usize>) -> (r: Result<(), SimseError>)
    ensures
        r is Ok <==> (first_length matches Some(n) && n > 0),
        first_length is None ==> (r matches Err(e) && is_library_error(e, LibraryErrorCode::EmbeddingFailed,
            "Embedding provider returned no embeddings"@)),
        first_length == Some(0usize) ==> (r matches Err(e) && is_library_error(e, LibraryErrorCode::EmbeddingFailed,
            "Embedding provider returned an empty embedding vector"@)),
{
    match first_length {
        None => Err(SimseError::library(
            LibraryErrorCode::EmbeddingFailed,
            "Embedding provider returned no embeddings",
        )),
        Some(0) => Err(SimseError::library(
            LibraryErrorCode::EmbeddingFailed,
            "Embedding provider returned an empty embedding vector",
        )),
        Some(_) => Ok(()),
    }
}

/// Options for creating a compendium (summarization of multiple volumes).
#[derive(Debug, Clone)]
pub struct CompendiumOptions {
    /// IDs of volumes to summarize (minimum 2).
    pub ids: Vec<String>,
    /// Custom instruction prompt for the summarization.
    pub prompt: Option<String>,
    /// Optional system prompt passed to the text generation provider.
    pub system_prompt: Option<String>,
    /// If true, delete the source volumes after summarization.
    pub delete_originals: bool,
    /// Additional metadata to attach to the compendium volume.
    pub metadata: HashMap<String, String>,
}

/// Result of a compendium operation.
#[derive(Debug, Clone)]
pub struct CompendiumResult {
    /// ID of the newly created compendium volume.
    pub compendium_id: String,
    /// The generated summary text.
    pub text: String,
    /// IDs of the source volumes that were summarized.
    pub source_ids: Vec<String>,
    /// Whether the source volumes were deleted.
    pub deleted_originals: bool,
}

/// A compendium needs a text generator and at least two volumes.
pub fn check_compendium(has_generator: bool, id_count: usize) -> (r: Result<(), SimseError>)
    ensures
        r is Ok <==> has_generator && id_count >= 2,
        !has_generator ==> (r matches Err(e) && is_library_error(e, LibraryErrorCode::NotInitialized,
            "Compendium requires a text generator. Call set_text_generator() first."@)),
        has_generator && id_count < 2 ==> (r matches Err(e) && is_library_error(e, LibraryErrorCode::InvalidInput,
            "Compendium requires at least 2 volume IDs"@)),
{
    if !has_generator {
        return Err(SimseError::library(
            LibraryErrorCode::NotInitialized,
            "Compendium requires a text generator. Call set_text_generator() first.",
        ));
    }
    if id_count < 2 {
        return Err(SimseError::library(LibraryErrorCode::InvalidInput, "Compendium requires at least 2 volume IDs"));
    }
    Ok(())
}

/// The error for a volume of a compendium that is not in the store.
pub fn missing_volume(id: &str) -> (r: SimseError)
    ensures
        is_library_error(r, LibraryErrorCode::NotFound, "Volume \""@ + id@ + "\" not found for compendium"@),
{
    let mut m = "Volume \"".to_owned();
    m.append(id);
    m.append("\" not found for compendium");
    SimseError::Library { code: LibraryErrorCode::NotFound, message: m }
}

/// The instruction used when the options give none.
pub open spec fn default_compendium_instruction() -> Seq<char> {
    "Summarize the following volumes into a single concise summary that captures all key information:"@
}

/// The prompt of a compendium: the instruction, a blank line, and the
/// source texts as numbered blocks.
pub open spec fn compendium_prompt_text(instruction: Option<Seq<char>>, texts: Seq<Seq<char>>) -> Seq<char> {
    let i = match instruction {
        Some(t) => t,
        None => default_compendium_instruction(),
    };
    i + "\n\n"@ + join_seqs(volume_blocks(texts), "\n\n"@)
}

/// The prompt asking for the compendium of the source texts.
pub fn compendium_prompt(instruction: Option<&str>, texts: &[String]) -> (r: String)
    ensures
        r@ == compendium_prompt_text(
            match instruction { Some(t) => Some(t@), None => None },
            views_of(texts@),
        ),
{
    let combined = numbered_volumes(texts);
    let mut p = match instruction {
        Some(t) => t.to_owned(),
        None => "Summarize the following volumes into a single concise summary that captures all key information:"
            .to_owned(),
    };
    p.append("\n\n");
    p.append(combined.as_str());
    p
}

/// The value of the `summarizedFrom` metadata of a compendium: the source
/// ids joined by commas.
pub fn summarized_from(ids: &[String]) -> (r: String)
    ensures
        r@ == join_seqs(views_of(ids@), ","@),
{
    join_strings(ids, ",")
}

/// Strictly increasing in the order of strings.
pub open spec fn strictly_sorted(s: Seq<Seq<char>>) -> bool {
    forall|i: int, j: int| 0 <= i < j < s.len() ==> chars_less(#[trigger] s[i], #[trigger] s[j])
}

/// The names, each once, in the order of strings (the shelves present in the
/// library, from the `shelf` metadata of its volumes).
pub fn sorted_distinct(names: &[String]) -> (r: Vec<String>)
    ensures
        strictly_sorted(views_of(r@)),
        forall|x: Seq<char>| views_of(r@).contains(x) <==> views_of(names@).contains(x),
{
    let mut r: Vec<String> = Vec::new();
    let mut n: usize = 0;
    while n < names.len()
        invariant
            n <= names.len(),
            strictly_sorted(views_of(r@)),
            forall|x: Seq<char>| views_of(r@).contains(x) <==> views_of(names@.take(n as int)).contains(x),
        decreases names.len() - n,
    {
        let name = names[n].as_str();
        let ghost v = views_of(r@);
        let mut p: usize = 0;
        while p < r.len() && str_less(r[p].as_str(), name)
            invariant
                p <= r.len(),
                v == views_of(r@),
                forall|j: int| 0 <= j < p ==> chars_less(#[trigger] v[j], name@),
            decreases r.len() - p,
        {
            p += 1;
        }
        let present = p < r.len() && str_eq(r[p].as_str(), name);
        proof {
            assert(names@.take(n + 1) =~= names@.take(n as int).push(names@[n as int]));
            assert(views_of(names@.take(n + 1)) =~= views_of(names@.take(n as int)).push(name@));
        }
        if !present {
            let ghost old_r = r@;
            r.insert(p, names[n].clone());
            proof {
                let w = views_of(r@);
                assert(w =~= v.insert(p as int, name@));
                if p < v.len() {
                    assert(!chars_less(v[p as int], name@));
                    assert(v[p as int] != name@);
                    lemma_chars_less_total(v[p as int], name@);
                }
                assert forall|i: int, j: int| 0 <= i < j < w.len() implies chars_less(#[trigger] w[i], #[trigger] w[j]) by {
                    if j < p {
                        assert(w[i] == v[i] && w[j] == v[j]);
                    } else if j == p {
                        assert(w[i] == v[i]);
                    } else if i < p {
                        assert(w[i] == v[i] && w[j] == v[j - 1]);
                        assert(chars_less(v[i], name@));
                        assert(chars_less(name@, v[p as int]));
                        if j - 1 > p {
                            assert(chars_less(v[p as int], v[j - 1]));
                            lemma_chars_less_transitive(name@, v[p as int], v[j - 1]);
                        }
                        lemma_chars_less_transitive(v[i], name@, v[j - 1]);
                    } else if i == p {
                        assert(w[j] == v[j - 1]);
                        if j - 1 > p {
                            assert(chars_less(v[p as int], v[j - 1]));
                            lemma_chars_less_transitive(name@, v[p as int], v[j - 1]);
                        }
                    } else {
                        assert(w[i] == v[i - 1] && w[j] == v[j - 1]);
                    }
                }
                assert forall|x: Seq<char>| w.contains(x) <==> v.push(name@).contains(x) by {
                    if w.contains(x) {
                        let k = choose|k: int| 0 <= k < w.len() && w[k] == x;
                        if k < p {
                            assert(v[k] == x);
                            assert(v.push(name@)[k] == x);
                        } else if k == p {
                            assert(v.push(name@)[v.len() as int] == x);
                        } else {
                            assert(v[k - 1] == x);
                            assert(v.push(name@)[k - 1] == x);
                        }
                    }
                    if v.push(name@).contains(x) {
                        let k = choose|k: int| 0 <= k < v.len() + 1 && v.push(name@)[k] == x;
                        if k == v.len() {
                            assert(w[p as int] == x);
                        } else if k < p {
                            assert(w[k] == x);
                        } else {
                            assert(w[k + 1] == x);
                        }
                    }
                }
                assert forall|x: Seq<char>| v.push(name@).contains(x) <==> (v.contains(x) || x == name@) by {
                    if v.contains(x) {
                        let k = choose|k: int| 0 <= k < v.len() && v[k] == x;
                        assert(v.push(name@)[k] == x);
                    }
                    if x == name@ {
                        assert(v.push(name@)[v.len() as int] == x);
                    }
                }
                assert forall|x: Seq<char>| views_of(names@.take(n as int)).push(name@).contains(x)
                    <==> (views_of(names@.take(n as int)).contains(x) || x == name@) by {
                    let q = views_of(names@.take(n as int));
                    if q.contains(x) {
                        let k = choose|k: int| 0 <= k < q.len() && q[k] == x;
                        assert(q.push(name@)[k] == x);
                    }
                    if x == name@ {
                        assert(q.push(name@)[q.len() as int] == x);
                    }
                }
            }
        } else {
            proof {
                assert(v[p as int] == name@);
                assert(v.contains(name@));
                assert forall|x: Seq<char>| views_of(names@.take(n as int)).push(name@).contains(x)
                    <==> (views_of(names@.take(n as int)).contains(x) || x == name@) by {
                    let q = views_of(names@.take(n as int));
                    if q.contains(x) {
                        let k = choose|k: int| 0 <= k < q.len() && q[k] == x;
                        assert(q.push(name@)[k] == x);
                    }
                    if x == name@ {
                        assert(q.push(name@)[q.len() as int] == x);
                    }
                }
            }
        }
        proof {
            let q = views_of(names@.take(n as int));
            assert forall|x: Seq<char>| views_of(r@).contains(x) <==> views_of(names@.take(n + 1)).contains(x) by {
                assert(views_of(names@.take(n + 1)) == q.push(name@));
                assert(q.push(name@).contains(x) <==> (q.contains(x) || x == name@));
                assert(v.contains(x) <==> q.contains(x));
                if !present {
                    assert(views_of(r@).contains(x) <==> v.push(name@).contains(x));
                    assert(v.push(name@).contains(x) <==> (v.contains(x) || x == name@));
                } else {
                    assert(views_of(r@) == v);
                }
            }
        }
        n += 1;
    }
    proof {
        assert(names@.take(names.len() as int) =~= names@);
    }
    r
}

} // verus!
