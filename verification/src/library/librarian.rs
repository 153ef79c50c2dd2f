//! Librarian results and the decisions around the model calls: what the
//! prompts contain, how parsed responses become results, and how content
//! is truncated for a prompt.
//!
//! The model is called, and its JSON response parsed, by the application;
//! the parsed fields arrive here as optional plain values.

use vstd::prelude::*;
use vstd::utf8::{encode_scalar, encode_utf8};
use crate::text::{chars_of, push_char, push_decimal, views_of};

verus! {

// ---------------------------------------------------------------------------
// Truncation on character boundaries
// ---------------------------------------------------------------------------

/// The number of bytes of a character's UTF-8 encoding.
pub open spec fn utf8_width(c: char) -> nat {
    encode_scalar(c as u32).len()
}

fn char_width(c: char) -> (r: usize)
    ensures
        r == utf8_width(c),
        1 <= r <= 4,
{
    let v = c as u32;
    if v < 0x80 {
        1
    } else if v < 0x800 {
        2
    } else if v < 0x10000 {
        3
    } else {
        4
    }
}

proof fn lemma_encode_append(a: Seq<char>, b: Seq<char>)
    ensures
        encode_utf8(a + b) == encode_utf8(a) + encode_utf8(b),
    decreases a.len(),
{
    if a.len() == 0 {
        assert(a + b =~= b);
    } else {
        lemma_encode_append(a.drop_first(), b);
        assert((a + b).drop_first() =~= a.drop_first() + b);
        assert((a + b)[0] == a[0]);
    }
}

/// The UTF-8 length of the first `k` characters.
pub open spec fn prefix_bytes(s: Seq<char>, k: int) -> nat {
    encode_utf8(s.take(k)).len()
}

proof fn lemma_prefix_step(s: Seq<char>, k: int)
    requires
        0 <= k < s.len(),
    ensures
        prefix_bytes(s, k + 1) == prefix_bytes(s, k) + utf8_width(s[k]),
{
    let one = seq![s[k]];
    lemma_encode_append(s.take(k), one);
    assert(s.take(k + 1) =~= s.take(k) + one);
    assert(one.drop_first() =~= Seq::<char>::empty());
    assert(encode_utf8(one.drop_first()) =~= Seq::<u8>::empty());
    assert(encode_utf8(one) == encode_scalar(one[0] as u32) + encode_utf8(one.drop_first()));
    assert(encode_utf8(one) =~= encode_scalar(s[k] as u32));
}

/// The longest character prefix of `s` whose UTF-8 encoding takes at most
/// `max_bytes` bytes: `r@ == s@.take(k)` where the first `k` characters fit
/// and the first `k + 1` do not (or `k` is the whole text).
pub fn truncate_str(s: &str, max_bytes: usize) -> (r: String)
    ensures
        exists|k: int| 0 <= k <= s@.len() && r@ == s@.take(k) && prefix_bytes(s@, k) <= max_bytes
            && (k == s@.len() || prefix_bytes(s@, k + 1) > max_bytes),
{
    let cs = chars_of(s);
    let mut out = String::new();
    let mut used: usize = 0;
    let mut i: usize = 0;
    assert(s@.take(0) =~= Seq::<char>::empty());
    while i < cs.len()
        invariant
            cs@ == s@,
            i <= cs@.len(),
            out@ == s@.take(i as int),
            used == prefix_bytes(s@, i as int),
            used <= max_bytes,
        decreases cs@.len() - i,
    {
        let w = char_width(cs[i]);
        proof {
            lemma_prefix_step(s@, i as int);
        }
        if w > max_bytes - used {
            return out;
        }
        used = used + w;
        push_char(&mut out, cs[i]);
        assert(out@ =~= s@.take(i + 1));
        i = i + 1;
    }
    assert(s@.take(i as int) =~= s@);
    out
}

// ---------------------------------------------------------------------------
// Result types
// ---------------------------------------------------------------------------

/// Entry type for an extracted memory.
#[derive(Debug, Clone, Copy, PartialEq, Eq, Structural)]
pub enum EntryType {
    Fact,
    Decision,
    Observation,
}

/// The name of an entry type.
pub open spec fn entry_type_name(t: EntryType) -> Seq<char> {
    match t {
        EntryType::Fact => "fact"@,
        EntryType::Decision => "decision"@,
        EntryType::Observation => "observation"@,
    }
}

impl EntryType {
    pub fn as_str(&self) -> (r: &'static str)
        ensures
            r@ == entry_type_name(*self),
    {
        match self {
            EntryType::Fact => "fact",
            EntryType::Decision => "decision",
            EntryType::Observation => "observation",
        }
    }
}

/// The entry type named `s`, if any.
pub open spec fn entry_type_of(s: Seq<char>) -> Option<EntryType> {
    if s == "fact"@ {
        Some(EntryType::Fact)
    } else if s == "decision"@ {
        Some(EntryType::Decision)
    } else if s == "observation"@ {
        Some(EntryType::Observation)
    } else {
        None
    }
}

/// The entry type named `s`, if any.
pub fn parse_entry_type(s: &str) -> (r: Option<EntryType>)
    ensures
        r == entry_type_of(s@),
{
    if crate::text::str_eq(s, "fact") {
        Some(EntryType::Fact)
    } else if crate::text::str_eq(s, "decision") {
        Some(EntryType::Decision)
    } else if crate::text::str_eq(s, "observation") {
        Some(EntryType::Observation)
    } else {
        None
    }
}

/// A single extracted memory from a conversation turn.
#[derive(Debug, Clone)]
pub struct ExtractionMemory {
    pub text: String,
    pub topic: String,
    pub tags: Vec<String>,
    pub entry_type: EntryType,
}

/// Result of an extraction.
#[derive(Debug, Clone)]
pub struct ExtractionResult {
    pub memories: Vec<ExtractionMemory>,
}

/// Options for creating a librarian.
#[derive(Debug, Clone, Default)]
pub struct LibrarianOptions {
    pub name: Option<String>,
    pub purpose: Option<String>,
}

/// The name and purpose of a librarian created with these options:
/// `default` and `General-purpose librarian` where none is given.
pub fn librarian_identity(options: Option<LibrarianOptions>) -> (r: (String, String))
    ensures
        r.0@ == (match options {
            Some(LibrarianOptions { name: Some(n), .. }) => n@,
            _ => "default"@,
        }),
        r.1@ == (match options {
            Some(LibrarianOptions { purpose: Some(p), .. }) => p@,
            _ => "General-purpose librarian"@,
        }),
{
    let (name, purpose) = match options {
        Some(o) => (o.name, o.purpose),
        None => (None, None),
    };
    let name = match name {
        Some(n) => n,
        None => "default".to_owned(),
    };
    let purpose = match purpose {
        Some(p) => p,
        None => "General-purpose librarian".to_owned(),
    };
    (name, purpose)
}

/// Context for a conversation turn.
#[derive(Debug, Clone)]
pub struct TurnContext {
    pub user_input: String,
    pub response: String,
}

/// A single volume move in a reorganization plan.
#[derive(Debug, Clone)]
pub struct ReorganizationMove {
    pub volume_id: String,
    pub new_topic: String,
}

/// A topic merge in a reorganization plan.
#[derive(Debug, Clone)]
pub struct ReorganizationMerge {
    pub source: String,
    pub target: String,
}

/// Plan for reorganizing volumes within a topic.
#[derive(Debug, Clone)]
pub struct ReorganizationPlan {
    pub moves: Vec<ReorganizationMove>,
    pub new_subtopics: Vec<String>,
    pub merges: Vec<ReorganizationMerge>,
}

impl ReorganizationPlan {
    /// A plan that changes nothing.
    pub fn empty() -> (r: Self)
        ensures
            r.moves@.len() == 0,
            r.new_subtopics@.len() == 0,
            r.merges@.len() == 0,
    {
        ReorganizationPlan { moves: Vec::new(), new_subtopics: Vec::new(), merges: Vec::new() }
    }
}

/// Result of an optimization.
#[derive(Debug, Clone)]
pub struct OptimizationResult {
    pub pruned: Vec<String>,
    pub summary: String,
    pub reorganization: ReorganizationPlan,
    pub model_used: String,
}

impl OptimizationResult {
    /// A result that prunes nothing and has no summary.
    pub fn empty(model_id: &str) -> (r: Self)
        ensures
            r.pruned@.len() == 0,
            r.summary@.len() == 0,
            r.reorganization.moves@.len() == 0,
            r.reorganization.new_subtopics@.len() == 0,
            r.reorganization.merges@.len() == 0,
            r.model_used@ == model_id@,
    {
        OptimizationResult {
            pruned: Vec::new(),
            summary: String::new(),
            reorganization: ReorganizationPlan::empty(),
            model_used: model_id.to_owned(),
        }
    }
}

/// Minimal volume representation for librarian operations.
#[derive(Debug, Clone)]
pub struct Volume {
    pub id: String,
    pub text: String,
}

/// Summarization result.
#[derive(Debug, Clone)]
pub struct SummarizeResult {
    pub text: String,
    pub source_ids: Vec<String>,
}

// ---------------------------------------------------------------------------
// Parsed responses
// ---------------------------------------------------------------------------

/// One memory as parsed from an extraction response; every field may be
/// missing.
#[derive(Debug, Clone)]
pub struct ExtractedMemoryFields {
    pub text: Option<String>,
    pub topic: Option<String>,
    pub tags: Option<Vec<String>>,
    pub entry_type: Option<String>,
}

/// The memory a parsed entry stands for: it needs a text, a topic and a
/// known entry type; missing tags are none.
pub open spec fn memory_of(f: ExtractedMemoryFields) -> Option<(Seq<char>, Seq<char>, Seq<Seq<char>>, EntryType)> {
    match (f.text, f.topic, f.entry_type) {
        (Some(text), Some(topic), Some(et)) => match entry_type_of(et@) {
            Some(t) => Some((text@, topic@, match f.tags { Some(tags) => views_of(tags@), None => Seq::empty() }, t)),
            None => None,
        },
        _ => None,
    }
}

/// The memories the parsed entries stand for, in order, skipping the
/// incomplete ones.
pub open spec fn memories_of(fs: Seq<ExtractedMemoryFields>) -> Seq<(Seq<char>, Seq<char>, Seq<Seq<char>>, EntryType)>
    decreases fs.len(),
{
    if fs.len() == 0 {
        Seq::empty()
    } else {
        let prev = memories_of(fs.drop_last());
        match memory_of(fs.last()) {
            Some(m) => prev.push(m),
            None => prev,
        }
    }
}

/// The view of a memory.
pub open spec fn memory_view(m: ExtractionMemory) -> (Seq<char>, Seq<char>, Seq<Seq<char>>, EntryType) {
    (m.text@, m.topic@, views_of(m.tags@), m.entry_type)
}

/// A copy of a list of strings.
pub fn clone_strings(v: &Vec<String>) -> (r: Vec<String>)
    ensures
        views_of(r@) == views_of(v@),
{
    let mut out: Vec<String> = Vec::new();
    let mut i: usize = 0;
    while i < v.len()
        invariant
            i <= v@.len(),
            out@.len() == i,
            forall|j: int| 0 <= j < i ==> (#[trigger] out@[j])@ == v@[j]@,
        decreases v@.len() - i,
    {
        out.push(v[i].clone());
        i = i + 1;
    }
    assert(views_of(out@) =~= views_of(v@));
    out
}

/// The result of an extraction from the parsed memories (`None` when the
/// response had no memory list).
pub fn extraction_from_fields(fields: Option<Vec<ExtractedMemoryFields>>) -> (r: ExtractionResult)
    ensures
        r.memories@.map_values(|m: ExtractionMemory| memory_view(m)) == (match fields {
            Some(fs) => memories_of(fs@),
            None => Seq::empty(),
        }),
{
    let fs = match fields {
        Some(fs) => fs,
        None => {
            let r = ExtractionResult { memories: Vec::new() };
            assert(r.memories@.map_values(|m: ExtractionMemory| memory_view(m)) =~= Seq::empty());
            return r;
        },
    };
    let ghost all = fs@;
    let mut memories: Vec<ExtractionMemory> = Vec::new();
    let mut i: usize = 0;
    while i < fs.len()
        invariant
            i <= fs@.len(),
            all == fs@,
            memories@.map_values(|m: ExtractionMemory| memory_view(m)) == memories_of(all.take(i as int)),
        decreases fs@.len() - i,
    {
        let f = &fs[i];
        let ghost before = memories@.map_values(|m: ExtractionMemory| memory_view(m));
        proof {
            assert(all.take(i + 1).drop_last() =~= all.take(i as int));
            assert(all.take(i + 1).last() == all[i as int]);
        }
        match (&f.text, &f.topic, &f.entry_type) {
            (Some(text), Some(topic), Some(et)) => {
                match parse_entry_type(et.as_str()) {
                    Some(entry_type) => {
                        let tags = match &f.tags {
                            Some(t) => clone_strings(t),
                            None => Vec::new(),
                        };
                        assert(views_of(tags@) =~= match f.tags { Some(t) => views_of(t@), None => Seq::empty() });
                        memories.push(ExtractionMemory {
                            text: text.clone(),
                            topic: topic.clone(),
                            tags,
                            entry_type,
                        });
                        assert(memories@.map_values(|m: ExtractionMemory| memory_view(m)) =~= before.push(
                            memory_of(all[i as int])->0));
                    },
                    None => {},
                }
            },
            _ => {},
        }
        i = i + 1;
    }
    assert(all.take(all.len() as int) =~= all);
    ExtractionResult { memories }
}

/// A move as parsed from a response.
#[derive(Debug, Clone)]
pub struct ReorgMoveFields {
    pub volume_id: Option<String>,
    pub new_topic: Option<String>,
}

/// A merge as parsed from a response.
#[derive(Debug, Clone)]
pub struct ReorgMergeFields {
    pub source: Option<String>,
    pub target: Option<String>,
}

/// A reorganization plan as parsed from a response.
#[derive(Debug, Clone)]
pub struct ReorgFields {
    pub moves: Option<Vec<ReorgMoveFields>>,
    pub new_subtopics: Option<Vec<String>>,
    pub merges: Option<Vec<ReorgMergeFields>>,
}

/// An optimization result as parsed from a response.
#[derive(Debug, Clone)]
pub struct OptimizationFields {
    pub pruned: Option<Vec<String>>,
    pub summary: Option<String>,
    pub reorganization: Option<ReorgFields>,
}

/// The complete moves, in order, as (volume, new topic).
pub open spec fn complete_moves(ms: Seq<ReorgMoveFields>) -> Seq<(Seq<char>, Seq<char>)>
    decreases ms.len(),
{
    if ms.len() == 0 {
        Seq::empty()
    } else {
        let prev = complete_moves(ms.drop_last());
        match (ms.last().volume_id, ms.last().new_topic) {
            (Some(v), Some(t)) => prev.push((v@, t@)),
            _ => prev,
        }
    }
}

/// The complete merges, in order, as (source, target).
pub open spec fn complete_merges(ms: Seq<ReorgMergeFields>) -> Seq<(Seq<char>, Seq<char>)>
    decreases ms.len(),
{
    if ms.len() == 0 {
        Seq::empty()
    } else {
        let prev = complete_merges(ms.drop_last());
        match (ms.last().source, ms.last().target) {
            (Some(s), Some(t)) => prev.push((s@, t@)),
            _ => prev,
        }
    }
}

pub open spec fn moves_view(ms: Seq<ReorganizationMove>) -> Seq<(Seq<char>, Seq<char>)> {
    ms.map_values(|m: ReorganizationMove| (m.volume_id@, m.new_topic@))
}

pub open spec fn merges_view(ms: Seq<ReorganizationMerge>) -> Seq<(Seq<char>, Seq<char>)> {
    ms.map_values(|m: ReorganizationMerge| (m.source@, m.target@))
}

fn collect_moves(ms: &Vec<ReorgMoveFields>) -> (r: Vec<ReorganizationMove>)
    ensures
        moves_view(r@) == complete_moves(ms@),
{
    let mut out: Vec<ReorganizationMove> = Vec::new();
    let mut i: usize = 0;
    while i < ms.len()
        invariant
            i <= ms@.len(),
            moves_view(out@) == complete_moves(ms@.take(i as int)),
        decreases ms@.len() - i,
    {
        let ghost before = moves_view(out@);
        proof {
            assert(ms@.take(i + 1).drop_last() =~= ms@.take(i as int));
            assert(ms@.take(i + 1).last() == ms@[i as int]);
        }
        match (&ms[i].volume_id, &ms[i].new_topic) {
            (Some(v), Some(t)) => {
                out.push(ReorganizationMove { volume_id: v.clone(), new_topic: t.clone() });
                assert(moves_view(out@) =~= before.push((v@, t@)));
            },
            _ => {},
        }
        i = i + 1;
    }
    assert(ms@.take(ms@.len() as int) =~= ms@);
    out
}

fn collect_merges(ms: &Vec<ReorgMergeFields>) -> (r: Vec<ReorganizationMerge>)
    ensures
        merges_view(r@) == complete_merges(ms@),
{
    let mut out: Vec<ReorganizationMerge> = Vec::new();
    let mut i: usize = 0;
    while i < ms.len()
        invariant
            i <= ms@.len(),
            merges_view(out@) == complete_merges(ms@.take(i as int)),
        decreases ms@.len() - i,
    {
        let ghost before = merges_view(out@);
        proof {
            assert(ms@.take(i + 1).drop_last() =~= ms@.take(i as int));
            assert(ms@.take(i + 1).last() == ms@[i as int]);
        }
        match (&ms[i].source, &ms[i].target) {
            (Some(a), Some(b)) => {
                out.push(ReorganizationMerge { source: a.clone(), target: b.clone() });
                assert(merges_view(out@) =~= before.push((a@, b@)));
            },
            _ => {},
        }
        i = i + 1;
    }
    assert(ms@.take(ms@.len() as int) =~= ms@);
    out
}

/// `plan` is the plan a parsed reorganization stands for: its complete
/// moves and merges, and its new subtopics (none when missing).
pub open spec fn plan_matches(plan: ReorganizationPlan, f: ReorgFields) -> bool {
    &&& moves_view(plan.moves@) == (match f.moves { Some(ms) => complete_moves(ms@), None => Seq::empty() })
    &&& views_of(plan.new_subtopics@) == (match f.new_subtopics { Some(t) => views_of(t@), None => Seq::empty() })
    &&& merges_view(plan.merges@) == (match f.merges { Some(ms) => complete_merges(ms@), None => Seq::empty() })
}

/// The reorganization plan of a parsed response; incomplete moves and
/// merges are skipped.
pub fn parse_reorg(f: &ReorgFields) -> (r: ReorganizationPlan)
    ensures
        plan_matches(r, *f),
{
    let moves = match &f.moves {
        Some(ms) => collect_moves(ms),
        None => Vec::new(),
    };
    let new_subtopics = match &f.new_subtopics {
        Some(t) => clone_strings(t),
        None => Vec::new(),
    };
    let merges = match &f.merges {
        Some(ms) => collect_merges(ms),
        None => Vec::new(),
    };
    let r = ReorganizationPlan { moves, new_subtopics, merges };
    assert(moves_view(r.moves@) =~= (match f.moves { Some(ms) => complete_moves(ms@), None => Seq::empty() }));
    assert(views_of(r.new_subtopics@) =~= (match f.new_subtopics { Some(t) => views_of(t@), None => Seq::empty() }));
    assert(merges_view(r.merges@) =~= (match f.merges { Some(ms) => complete_merges(ms@), None => Seq::empty() }));
    r
}

/// The optimization result of a parsed response (`None` when the response
/// did not parse): missing parts are empty.
pub fn optimization_from_fields(f: Option<OptimizationFields>, model_id: &str) -> (r: OptimizationResult)
    ensures
        r.model_used@ == model_id@,
        match f {
            Some(o) => {
                &&& views_of(r.pruned@) == (match o.pruned { Some(p) => views_of(p@), None => Seq::empty() })
                &&& r.summary@ == (match o.summary { Some(s) => s@, None => Seq::empty() })
                &&& match o.reorganization {
                    Some(g) => plan_matches(r.reorganization, g),
                    None => r.reorganization.moves@.len() == 0 && r.reorganization.new_subtopics@.len() == 0
                        && r.reorganization.merges@.len() == 0,
                }
            },
            None => r.pruned@.len() == 0 && r.summary@.len() == 0 && r.reorganization.moves@.len() == 0
                && r.reorganization.new_subtopics@.len() == 0 && r.reorganization.merges@.len() == 0,
        },
{
    match f {
        None => OptimizationResult::empty(model_id),
        Some(o) => {
            let pruned = match &o.pruned {
                Some(p) => clone_strings(p),
                None => Vec::new(),
            };
            assert(views_of(pruned@) =~= (match o.pruned { Some(p) => views_of(p@), None => Seq::empty() }));
            let summary = match &o.summary {
                Some(s) => s.clone(),
                None => String::new(),
            };
            let reorganization = match &o.reorganization {
                Some(g) => parse_reorg(g),
                None => ReorganizationPlan::empty(),
            };
            OptimizationResult { pruned, summary, reorganization, model_used: model_id.to_owned() }
        },
    }
}

/// One `- [id] text` line per volume.
pub open spec fn volume_lines(volumes: Seq<Volume>) -> Seq<Seq<char>> {
    volumes.map_values(|v: Volume| "- ["@ + v.id@ + "] "@ + v.text@)
}

/// The volumes as `- [id] text` lines.
pub fn volume_list(volumes: &[Volume]) -> (r: String)
    ensures
        r@ == crate::text::join_seqs(volume_lines(volumes@), "\n"@),
{
    let mut lines: Vec<String> = Vec::new();
    let mut i: usize = 0;
    while i < volumes.len()
        invariant
            i <= volumes@.len(),
            lines@.len() == i,
            forall|j: int| 0 <= j < i ==> (#[trigger] lines@[j])@ == "- ["@ + volumes@[j].id@ + "] "@ + volumes@[j].text@,
        decreases volumes@.len() - i,
    {
        let mut l = String::new();
        l.append("- [");
        l.append(volumes[i].id.as_str());
        l.append("] ");
        l.append(volumes[i].text.as_str());
        lines.push(l);
        i = i + 1;
    }
    assert(views_of(lines@) =~= volume_lines(volumes@));
    crate::text::join_strings(lines.as_slice(), "\n")
}

/// One `- topic` line per topic.
pub open spec fn topic_lines(topics: Seq<Seq<char>>) -> Seq<Seq<char>> {
    topics.map_values(|t: Seq<char>| "- "@ + t)
}

/// The existing topics as `- topic` lines, as the classification prompt
/// lists them.
pub fn topic_list(topics: &[String]) -> (r: String)
    ensures
        r@ == crate::text::join_seqs(topic_lines(views_of(topics@)), "\n"@),
{
    let mut lines: Vec<String> = Vec::new();
    let mut i: usize = 0;
    while i < topics.len()
        invariant
            i <= topics@.len(),
            lines@.len() == i,
            forall|j: int| 0 <= j < i ==> (#[trigger] lines@[j])@ == "- "@ + topics@[j]@,
        decreases topics@.len() - i,
    {
        let mut l = String::new();
        l.append("- ");
        l.append(topics[i].as_str());
        lines.push(l);
        i = i + 1;
    }
    assert(views_of(lines@) =~= topic_lines(views_of(topics@)));
    crate::text::join_strings(lines.as_slice(), "\n")
}

/// One `--- Volume n ---` block per volume, numbered from 1.
pub open spec fn volume_blocks(texts: Seq<Seq<char>>) -> Seq<Seq<char>> {
    Seq::new(texts.len(), |i: int| "--- Volume "@ + crate::text::decimal((i + 1) as nat) + " ---\n"@ + texts[i])
}

/// The texts as numbered `--- Volume n ---` blocks separated by blank lines.
pub fn numbered_volumes(texts: &[String]) -> (r: String)
    ensures
        r@ == crate::text::join_seqs(volume_blocks(views_of(texts@)), "\n\n"@),
{
    let mut blocks: Vec<String> = Vec::new();
    let mut i: usize = 0;
    while i < texts.len()
        invariant
            i <= texts@.len(),
            blocks@.len() == i,
            forall|j: int| 0 <= j < i ==> (#[trigger] blocks@[j])@ == "--- Volume "@ + crate::text::decimal((j + 1) as nat)
                + " ---\n"@ + texts@[j]@,
        decreases texts@.len() - i,
    {
        let mut b = String::new();
        b.append("--- Volume ");
        push_decimal(&mut b, i + 1);
        b.append(" ---\n");
        b.append(texts[i].as_str());
        blocks.push(b);
        i = i + 1;
    }
    assert(views_of(blocks@) =~= volume_blocks(views_of(texts@)));
    crate::text::join_strings(blocks.as_slice(), "\n\n")
}

/// The prompt asking for a summary of a topic's volumes.
pub open spec fn summarize_prompt_text(topic: Seq<char>, combined: Seq<char>) -> Seq<char> {
    "Summarize the following volumes from topic \""@ + topic
        + "\" into a single concise summary that preserves all key information:\n\n"@ + combined
}

/// The prompt asking for a summary of a topic's volumes (already combined
/// into numbered blocks).
pub fn summarize_prompt(topic: &str, combined: &str) -> (r: String)
    ensures
        r@ == summarize_prompt_text(topic@, combined@),
{
    let mut s = String::new();
    s.append("Summarize the following volumes from topic \"");
    s.append(topic);
    s.append("\" into a single concise summary that preserves all key information:\n\n");
    s.append(combined);
    s
}

/// The prompt asking the model for the memories of a conversation turn.
pub open spec fn extract_prompt_text(user_input: Seq<char>, response: Seq<char>) -> Seq<char> {
    "Analyze this conversation turn and extract important information worth remembering.\n\nUser: "@ + user_input + "\nAssistant: "@ + response + "\n\nReturn a JSON object with this structure:\n{\n  \"memories\": [\n    {\n      \"text\": \"concise fact or decision\",\n      \"topic\": \"hierarchical/topic/path\",\n      \"tags\": [\"tag1\", \"tag2\"],\n      \"entryType\": \"fact\" | \"decision\" | \"observation\"\n    }\n  ]\n}\n\nRules:\n- Only extract genuinely important facts, decisions, or observations\n- Skip trivial conversational content\n- Use hierarchical topic paths separated by /\n- Return {\"memories\": []} if nothing worth remembering\n\nRespond with ONLY valid JSON, no other text."@
}

/// The prompt asking the model for the memories of a conversation turn.
pub fn extract_prompt(user_input: &str, response: &str) -> (r: String)
    ensures
        r@ == extract_prompt_text(user_input@, response@),
{
    let mut s = String::new();
    s.append("Analyze this conversation turn and extract important information worth remembering.\n\nUser: ");
    s.append(user_input);
    s.append("\nAssistant: ");
    s.append(response);
    s.append("\n\nReturn a JSON object with this structure:\n{\n  \"memories\": [\n    {\n      \"text\": \"concise fact or decision\",\n      \"topic\": \"hierarchical/topic/path\",\n      \"tags\": [\"tag1\", \"tag2\"],\n      \"entryType\": \"fact\" | \"decision\" | \"observation\"\n    }\n  ]\n}\n\nRules:\n- Only extract genuinely important facts, decisions, or observations\n- Skip trivial conversational content\n- Use hierarchical topic paths separated by /\n- Return {\"memories\": []} if nothing worth remembering\n\nRespond with ONLY valid JSON, no other text.");
    s
}

/// The prompt asking the model to classify a text among the existing topics (one `- topic` line each).
pub open spec fn classify_prompt_text(text: Seq<char>, topics_list: Seq<char>) -> Seq<char> {
    "Classify the following text into the most appropriate topic.\n\nText: "@ + text + "\n\nExisting topics:\n"@ + topics_list + "\n\nReturn a JSON object:\n{\"topic\": \"best/topic/path\", \"confidence\": 0.0-1.0}\n\nYou may suggest a new subtopic if none of the existing ones fit well.\nRespond with ONLY valid JSON."@
}

/// The prompt asking the model to classify a text among the existing topics (one `- topic` line each).
pub fn classify_prompt(text: &str, topics_list: &str) -> (r: String)
    ensures
        r@ == classify_prompt_text(text@, topics_list@),
{
    let mut s = String::new();
    s.append("Classify the following text into the most appropriate topic.\n\nText: ");
    s.append(text);
    s.append("\n\nExisting topics:\n");
    s.append(topics_list);
    s.append("\n\nReturn a JSON object:\n{\"topic\": \"best/topic/path\", \"confidence\": 0.0-1.0}\n\nYou may suggest a new subtopic if none of the existing ones fit well.\nRespond with ONLY valid JSON.");
    s
}

/// The prompt asking the model to reorganize the volumes of a topic.
pub open spec fn reorganize_prompt_text(topic: Seq<char>, volume_list: Seq<char>) -> Seq<char> {
    "Review the following volumes in topic \""@ + topic + "\" and suggest reorganization.\n\nVolumes:\n"@ + volume_list + "\n\nReturn a JSON object:\n{\n  \"moves\": [{\"volumeId\": \"id\", \"newTopic\": \"new/topic/path\"}],\n  \"newSubtopics\": [\"new/subtopic\"],\n  \"merges\": [{\"source\": \"topic/a\", \"target\": \"topic/b\"}]\n}\n\nRespond with ONLY valid JSON."@
}

/// The prompt asking the model to reorganize the volumes of a topic.
pub fn reorganize_prompt(topic: &str, volume_list: &str) -> (r: String)
    ensures
        r@ == reorganize_prompt_text(topic@, volume_list@),
{
    let mut s = String::new();
    s.append("Review the following volumes in topic \"");
    s.append(topic);
    s.append("\" and suggest reorganization.\n\nVolumes:\n");
    s.append(volume_list);
    s.append("\n\nReturn a JSON object:\n{\n  \"moves\": [{\"volumeId\": \"id\", \"newTopic\": \"new/topic/path\"}],\n  \"newSubtopics\": [\"new/subtopic\"],\n  \"merges\": [{\"source\": \"topic/a\", \"target\": \"topic/b\"}]\n}\n\nRespond with ONLY valid JSON.");
    s
}

/// The prompt asking the model to prune, summarize and reorganize the volumes of a topic.
pub open spec fn optimize_prompt_text(topic: Seq<char>, volume_list: Seq<char>) -> Seq<char> {
    "You are a memory optimization agent. Analyze the following volumes in topic \""@ + topic + "\" and perform maintenance.\n\nVolumes:\n"@ + volume_list + "\n\nTasks:\n1. PRUNE: Identify volume IDs that are redundant, outdated, or low-value. List their IDs.\n2. SUMMARIZE: Write a single concise summary that preserves all important information from the remaining (non-pruned) volumes.\n3. REORGANIZE: Suggest any topic restructuring (moves, new subtopics, merges).\n\nReturn a JSON object:\n{\n  \"pruned\": [\"id1\", \"id2\"],\n  \"summary\": \"concise summary text\",\n  \"reorganization\": {\n    \"moves\": [{\"volumeId\": \"id\", \"newTopic\": \"new/topic\"}],\n    \"newSubtopics\": [\"new/subtopic\"],\n    \"merges\": [{\"source\": \"topic/a\", \"target\": \"topic/b\"}]\n  }\n}\n\nRespond with ONLY valid JSON."@
}

/// The prompt asking the model to prune, summarize and reorganize the volumes of a topic.
pub fn optimize_prompt(topic: &str, volume_list: &str) -> (r: String)
    ensures
        r@ == optimize_prompt_text(topic@, volume_list@),
{
    let mut s = String::new();
    s.append("You are a memory optimization agent. Analyze the following volumes in topic \"");
    s.append(topic);
    s.append("\" and perform maintenance.\n\nVolumes:\n");
    s.append(volume_list);
    s.append("\n\nTasks:\n1. PRUNE: Identify volume IDs that are redundant, outdated, or low-value. List their IDs.\n2. SUMMARIZE: Write a single concise summary that preserves all important information from the remaining (non-pruned) volumes.\n3. REORGANIZE: Suggest any topic restructuring (moves, new subtopics, merges).\n\nReturn a JSON object:\n{\n  \"pruned\": [\"id1\", \"id2\"],\n  \"summary\": \"concise summary text\",\n  \"reorganization\": {\n    \"moves\": [{\"volumeId\": \"id\", \"newTopic\": \"new/topic\"}],\n    \"newSubtopics\": [\"new/subtopic\"],\n    \"merges\": [{\"source\": \"topic/a\", \"target\": \"topic/b\"}]\n  }\n}\n\nRespond with ONLY valid JSON.");
    s
}

/// The prompt asking a librarian for its bid on content (already truncated to a preview).
pub open spec fn bid_prompt_text(name: Seq<char>, purpose: Seq<char>, topic: Seq<char>, preview: Seq<char>) -> Seq<char> {
    "You are a specialist librarian named \""@ + name + "\".\nPurpose: "@ + purpose + "\n\nGiven the following content and topic, assess how well-suited you are to manage it.\n\nTopic: "@ + topic + "\nContent preview: "@ + preview + "\n\nReturn ONLY valid JSON:\n{\"argument\": \"brief reason why you should manage this\", \"confidence\": 0.0-1.0}"@
}

/// The prompt asking a librarian for its bid on content (already truncated to a preview).
pub fn bid_prompt(name: &str, purpose: &str, topic: &str, preview: &str) -> (r: String)
    ensures
        r@ == bid_prompt_text(name@, purpose@, topic@, preview@),
{
    let mut s = String::new();
    s.append("You are a specialist librarian named \"");
    s.append(name);
    s.append("\".\nPurpose: ");
    s.append(purpose);
    s.append("\n\nGiven the following content and topic, assess how well-suited you are to manage it.\n\nTopic: ");
    s.append(topic);
    s.append("\nContent preview: ");
    s.append(preview);
    s.append("\n\nReturn ONLY valid JSON:\n{\"argument\": \"brief reason why you should manage this\", \"confidence\": 0.0-1.0}");
    s
}

} // verus!
