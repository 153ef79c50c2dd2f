//! The librarian registry's decisions: which librarians are registered,
//! which of them a topic routes to, how an arbitration reply is accepted, and
//! whether a proposed specialist is spawned.
//!
//! Bids carry floating-point confidences; sorting them and comparing their
//! gap to the self-resolution threshold happens where they are produced.
//! The model calls and the JSON parsing of their replies happen there too.

use vstd::prelude::*;
use vstd::utf8::{encode_utf8, is_char_boundary};
use crate::error::{LibraryErrorCode, SimseError};
use crate::library::librarian::{prefix_bytes, truncate_str, Volume};
use crate::library::librarian_def::{
    definition_errors, matches_topic, topic_matches, validate_definition, LibrarianDefinition,
};
use crate::text::{join_seqs, join_strings, str_eq, views_of};

verus! {

/// The names of a list of definitions, in order.
pub open spec fn names_of(defs: Seq<LibrarianDefinition>) -> Seq<Seq<char>> {
    defs.map_values(|d: LibrarianDefinition| d.name@)
}

/// The registered librarian definitions, in registration order; no name
/// occurs twice.
pub struct LibrarianIndex {
    defs: Vec<LibrarianDefinition>,
}

/// `e` is a library input error with the given message.
pub open spec fn input_error_is(e: SimseError, message: Seq<char>) -> bool {
    e matches SimseError::Library { code: LibraryErrorCode::InvalidInput, .. } && e.message_text() == Some(message)
}

impl LibrarianIndex {
    pub closed spec fn defs_view(&self) -> Seq<LibrarianDefinition> {
        self.defs@
    }

    pub open spec fn names_view(&self) -> Seq<Seq<char>> {
        names_of(self.defs_view())
    }

    pub open spec fn wf(&self) -> bool {
        self.names_view().no_duplicates()
    }

    /// An empty index.
    pub fn new() -> (r: Self)
        ensures
            r.wf(),
            r.defs_view().len() == 0,
    {
        let r = LibrarianIndex { defs: Vec::new() };
        assert(r.names_view() =~= Seq::<Seq<char>>::empty());
        r
    }

    /// The registered definitions.
    pub fn definitions(&self) -> (r: &[LibrarianDefinition])
        ensures
            r@ == self.defs_view(),
    {
        self.defs.as_slice()
    }

    /// Whether a librarian of that name is registered.
    pub fn contains(&self, name: &str) -> (r: bool)
        ensures
            r == self.names_view().contains(name@),
    {
        let mut i: usize = 0;
        while i < self.defs.len()
            invariant
                i <= self.defs@.len(),
                forall|j: int| 0 <= j < i ==> self.names_view()[j] != name@,
            decreases self.defs@.len() - i,
        {
            if str_eq(self.defs[i].name.as_str(), name) {
                assert(self.names_view()[i as int] == name@);
                return true;
            }
            i = i + 1;
        }
        false
    }

    /// Registers a definition: it must be valid and its name new.
    pub fn register(&mut self, def: LibrarianDefinition) -> (r: Result<(), SimseError>)
        requires
            old(self).wf(),
        ensures
            final(self).wf(),
            definition_errors(def).len() > 0 ==> (r matches Err(e) && input_error_is(e,
                "Invalid librarian definition: "@ + join_seqs(definition_errors(def), ", "@))),
            definition_errors(def).len() == 0 && old(self).names_view().contains(def.name@) ==> (r matches Err(e)
                && input_error_is(e, "Librarian \""@ + def.name@ + "\" is already registered"@)),
            r is Ok <==> (definition_errors(def).len() == 0 && !old(self).names_view().contains(def.name@)),
            r is Ok ==> final(self).defs_view() == old(self).defs_view().push(def),
            r is Err ==> final(self).defs_view() == old(self).defs_view(),
    {
        let v = validate_definition(&def);
        if !v.valid {
            let mut m = String::new();
            m.append("Invalid librarian definition: ");
            let joined = join_strings(v.errors.as_slice(), ", ");
            m.append(joined.as_str());
            return Err(SimseError::library(LibraryErrorCode::InvalidInput, m.as_str()));
        }
        if self.contains(def.name.as_str()) {
            let mut m = String::new();
            m.append("Librarian \"");
            m.append(def.name.as_str());
            m.append("\" is already registered");
            return Err(SimseError::library(LibraryErrorCode::InvalidInput, m.as_str()));
        }
        let ghost before = self.names_view();
        self.defs.push(def);
        assert(self.names_view() =~= before.push(def.name@));
        Ok(())
    }

    /// Unregisters a librarian; the default librarian cannot be.
    pub fn unregister(&mut self, name: &str) -> (r: Result<(), SimseError>)
        requires
            old(self).wf(),
        ensures
            final(self).wf(),
            r is Err <==> name@ == "default"@,
            r matches Err(e) ==> input_error_is(e, "Cannot unregister the default librarian"@),
            r is Err ==> final(self).defs_view() == old(self).defs_view(),
            r is Ok ==> !final(self).names_view().contains(name@),
            r is Ok ==> forall|n: Seq<char>| n != name@ ==> (final(self).names_view().contains(n)
                <==> old(self).names_view().contains(n)),
            r is Ok ==> forall|j: int| 0 <= j < final(self).defs_view().len() ==> old(self).defs_view().contains(
                #[trigger] final(self).defs_view()[j]),
    {
        if str_eq(name, "default") {
            return Err(SimseError::library(LibraryErrorCode::InvalidInput, "Cannot unregister the default librarian"));
        }
        let mut i: usize = 0;
        while i < self.defs.len()
            invariant
                i <= self.defs@.len(),
                self.defs@ == old(self).defs@,
                old(self).wf(),
                name@ != "default"@,
                forall|j: int| 0 <= j < i ==> self.names_view()[j] != name@,
            decreases self.defs@.len() - i,
        {
            if str_eq(self.defs[i].name.as_str(), name) {
                let ghost old_defs = self.defs@;
                let ghost old_names = self.names_view();
                let _ = self.defs.remove(i);
                proof {
                    assert(self.defs@ =~= old_defs.remove(i as int));
                    assert(self.names_view() =~= old_names.remove(i as int));
                    assert forall|a: int, b: int| 0 <= a < b < self.names_view().len()
                        implies self.names_view()[a] != self.names_view()[b] by {
                        let oa = if a < i { a } else { a + 1 };
                        let ob = if b < i { b } else { b + 1 };
                        assert(self.names_view()[a] == old_names[oa]);
                        assert(self.names_view()[b] == old_names[ob]);
                    }
                    assert forall|n: Seq<char>| n != name@ implies (self.names_view().contains(n)
                        <==> old_names.contains(n)) by {
                        if old_names.contains(n) {
                            let j = choose|j: int| 0 <= j < old_names.len() && old_names[j] == n;
                            assert(j != i);
                            let nj = if j < i { j } else { j - 1 };
                            assert(self.names_view()[nj] == n);
                        }
                        if self.names_view().contains(n) {
                            let j = choose|j: int| 0 <= j < self.names_view().len() && self.names_view()[j] == n;
                            let oj = if j < i { j } else { j + 1 };
                            assert(old_names[oj] == n);
                        }
                    }
                    assert(!self.names_view().contains(name@)) by {
                        if self.names_view().contains(name@) {
                            let j = choose|j: int| 0 <= j < self.names_view().len() && self.names_view()[j] == name@;
                            let oj = if j < i { j } else { j + 1 };
                            assert(old_names[oj] == name@);
                            assert(old_names[i as int] == name@);
                        }
                    }
                    assert forall|j: int| 0 <= j < self.defs@.len() implies old_defs.contains(#[trigger] self.defs@[j]) by {
                        let oj = if j < i { j } else { j + 1 };
                        assert(old_defs[oj] == self.defs@[j]);
                    }
                }
                return Ok(());
            }
            i = i + 1;
        }
        proof {
            assert(!self.names_view().contains(name@)) by {
                if self.names_view().contains(name@) {
                    let j = choose|j: int| 0 <= j < self.names_view().len() && self.names_view()[j] == name@;
                    assert(self.names_view()[j] != name@);
                }
            }
            assert forall|j: int| 0 <= j < self.defs@.len() implies old(self).defs_view().contains(#[trigger] self.defs@[j]) by {
                assert(old(self).defs@[j] == self.defs@[j]);
            }
        }
        Ok(())
    }

    /// The names of the librarians whose topic patterns match the topic, in
    /// registration order.
    pub fn candidates(&self, topic: &str) -> (r: Vec<String>)
        ensures
            views_of(r@) == matching_names(self.defs_view(), topic@),
    {
        let mut out: Vec<String> = Vec::new();
        let mut i: usize = 0;
        while i < self.defs.len()
            invariant
                i <= self.defs@.len(),
                views_of(out@) == matching_names(self.defs@.take(i as int), topic@),
            decreases self.defs@.len() - i,
        {
            let ghost before = views_of(out@);
            let d = &self.defs[i];
            proof {
                assert(self.defs@.take(i + 1).drop_last() =~= self.defs@.take(i as int));
                assert(self.defs@.take(i + 1).last() == *d);
            }
            if matches_topic(d.topics.as_slice(), topic) {
                out.push(d.name.clone());
                assert(views_of(out@) =~= before.push(d.name@));
            }
            i = i + 1;
        }
        assert(self.defs@.take(self.defs@.len() as int) =~= self.defs@);
        out
    }
}

/// Whether one of a definition's topic patterns matches the topic.
pub open spec fn serves_topic(d: LibrarianDefinition, topic: Seq<char>) -> bool {
    exists|k: int| 0 <= k < d.topics@.len() && #[trigger] topic_matches(d.topics@[k]@, topic)
}

/// The names of the definitions that serve the topic, in order.
pub open spec fn matching_names(defs: Seq<LibrarianDefinition>, topic: Seq<char>) -> Seq<Seq<char>>
    decreases defs.len(),
{
    if defs.len() == 0 {
        Seq::empty()
    } else {
        let prev = matching_names(defs.drop_last(), topic);
        if serves_topic(defs.last(), topic) {
            prev.push(defs.last().name@)
        } else {
            prev
        }
    }
}

/// The outcome of routing a topic before any bid is asked for.
#[derive(Debug, Clone)]
pub enum Routing {
    /// The librarian is chosen: its name and the reason.
    Chosen { winner: String, reason: String },
    /// Several librarians match: their bids decide.
    Bidding(Vec<String>),
}

/// Routes a topic given the matching librarians' names: none goes to the
/// default librarian, one is chosen directly, several bid.
pub fn route(candidates: Vec<String>) -> (r: Routing)
    ensures
        candidates@.len() == 0 ==> (r matches Routing::Chosen { winner, reason } && winner@ == "default"@
            && reason@ == "No specialist matched the topic; using default librarian."@),
        candidates@.len() == 1 ==> (r matches Routing::Chosen { winner, reason } && winner@ == candidates@[0]@
            && reason@ == "Only one librarian matched the topic."@),
        candidates@.len() >= 2 ==> (r matches Routing::Bidding(names) && names@ == candidates@),
{
    if candidates.len() == 0 {
        Routing::Chosen {
            winner: "default".to_owned(),
            reason: "No specialist matched the topic; using default librarian.".to_owned(),
        }
    } else if candidates.len() == 1 {
        Routing::Chosen { winner: candidates[0].clone(), reason: "Only one librarian matched the topic.".to_owned() }
    } else {
        Routing::Bidding(candidates)
    }
}

/// Accepts an arbitration reply: its winner must be one of the bidders;
/// a missing reason gets a default one. `None` when the reply names no
/// bidder.
pub fn accept_arbitration(bidders: &[String], winner: Option<String>, reason: Option<String>)
    -> (r: Option<(String, String)>)
    ensures
        r is Some <==> (winner matches Some(w) && views_of(bidders@).contains(w@)),
        r matches Some(p) ==> (winner matches Some(w) && p.0@ == w@) && p.1@ == (match reason {
            Some(x) => x@,
            None => "Arbitration by default librarian."@,
        }),
{
    match winner {
        Some(w) => {
            let mut i: usize = 0;
            while i < bidders.len()
                invariant
                    i <= bidders@.len(),
                    winner == Some(w),
                    forall|j: int| 0 <= j < i ==> bidders@[j]@ != w@,
                decreases bidders@.len() - i,
            {
                if str_eq(bidders[i].as_str(), w.as_str()) {
                    assert(views_of(bidders@)[i as int] == w@);
                    let why = match reason {
                        Some(x) => x,
                        None => "Arbitration by default librarian.".to_owned(),
                    };
                    return Some((w, why));
                }
                i = i + 1;
            }
            assert(!views_of(bidders@).contains(w@)) by {
                if views_of(bidders@).contains(w@) {
                    let j = choose|j: int| 0 <= j < views_of(bidders@).len() && views_of(bidders@)[j] == w@;
                    assert(bidders@[j]@ == w@);
                }
            }
            None
        },
        None => None,
    }
}

/// The reason recorded when arbitration falls back to the highest bidder.
pub fn fallback_reason() -> (r: String)
    ensures
        r@ == "Highest bidder wins (arbitration fallback)."@,
{
    "Highest bidder wins (arbitration fallback).".to_owned()
}

/// A text fits in `max` bytes or has a character boundary at byte `max`:
/// cutting it there is possible.
pub open spec fn cuttable_at(s: Seq<char>, max: nat) -> bool {
    encode_utf8(s).len() <= max || is_char_boundary(encode_utf8(s), max as int)
}

/// The first `max` bytes of a text (the whole text when it is shorter);
/// the cut must fall on a character boundary.
pub fn byte_prefix(s: &str, max: usize) -> (r: String)
    requires
        cuttable_at(s@, max as nat),
    ensures
        exists|k: int| 0 <= k <= s@.len() && r@ == s@.take(k) && prefix_bytes(s@, k) <= max
            && (k == s@.len() || prefix_bytes(s@, k + 1) > max),
{
    truncate_str(s, max)
}

/// `line` is `- ` followed by the longest prefix of `text` that fits in
/// 100 bytes.
pub open spec fn sample_line(line: Seq<char>, text: Seq<char>) -> bool {
    exists|k: int| 0 <= k <= text.len() && line == "- "@ + text.take(k) && prefix_bytes(text, k) <= 100
        && (k == text.len() || prefix_bytes(text, k + 1) > 100)
}

/// The samples of a topic's volumes shown when assessing a specialist: the
/// first five, each as `- ` and its first 100 bytes, one per line.
pub fn volume_samples(volumes: &[Volume]) -> (r: String)
    requires
        forall|i: int| 0 <= i < volumes@.len() && i < 5 ==> cuttable_at(#[trigger] volumes@[i].text@, 100),
    ensures
        exists|lines: Seq<Seq<char>>| r@ == join_seqs(lines, "\n"@) && lines.len() == (if volumes@.len() < 5 {
            volumes@.len()
        } else {
            5
        }) && forall|i: int| 0 <= i < lines.len() ==> sample_line(#[trigger] lines[i], volumes@[i].text@),
{
    let n = if volumes.len() < 5 { volumes.len() } else { 5 };
    let mut lines: Vec<String> = Vec::new();
    let mut i: usize = 0;
    while i < n
        invariant
            n <= volumes@.len(),
            n == (if volumes@.len() < 5 { volumes@.len() } else { 5 }),
            i <= n,
            lines@.len() == i,
            forall|j: int| 0 <= j < volumes@.len() && j < 5 ==> cuttable_at(#[trigger] volumes@[j].text@, 100),
            forall|j: int| 0 <= j < i ==> sample_line(#[trigger] lines@[j]@, volumes@[j].text@),
        decreases n - i,
    {
        let preview = byte_prefix(volumes[i].text.as_str(), 100);
        let mut l = String::new();
        l.append("- ");
        l.append(preview.as_str());
        let ghost t = volumes@[i as int].text@;
        proof {
            let k0 = choose|k: int| 0 <= k <= t.len() && preview@ == t.take(k) && prefix_bytes(t, k) <= 100
                && (k == t.len() || prefix_bytes(t, k + 1) > 100);
            assert(l@ == "- "@ + t.take(k0));
            assert(sample_line(l@, t));
        }
        let ghost old_lines = lines@;
        lines.push(l);
        proof {
            assert forall|j: int| 0 <= j < i + 1 implies sample_line(#[trigger] lines@[j]@, volumes@[j].text@) by {
                if j < i {
                    assert(lines@[j] == old_lines[j]);
                }
            }
        }
        i = i + 1;
    }
    let r = join_strings(lines.as_slice(), "\n");
    assert(forall|j: int| 0 <= j < views_of(lines@).len() ==> #[trigger] views_of(lines@)[j] == lines@[j]@);
    r
}

/// Decides a spawn assessment: `None` when the reply did not parse; a
/// specialist is spawned only when the reply says so.
pub fn spawn_assessment(topic: &str, parsed: Option<(Option<bool>, Option<String>)>) -> (r: Result<(), SimseError>)
    ensures
        parsed is None ==> (r matches Err(e) && input_error_is(e, "Failed to parse spawn assessment for topic \""@
            + topic@ + "\": invalid JSON response"@)),
        parsed matches Some(p) ==> (r is Ok <==> p.0 == Some(true)),
        match parsed {
            Some(p) => p.0 != Some(true) ==> (r matches Err(e) && input_error_is(e,
                "Specialist not needed for topic \""@ + topic@ + "\": "@ + (match p.1 {
                    Some(x) => x@,
                    None => "provider declined"@,
                }))),
            None => true,
        },
{
    match parsed {
        None => {
            let mut m = String::new();
            m.append("Failed to parse spawn assessment for topic \"");
            m.append(topic);
            m.append("\": invalid JSON response");
            Err(SimseError::library(LibraryErrorCode::InvalidInput, m.as_str()))
        },
        Some((should, reason)) => {
            if should == Some(true) {
                return Ok(());
            }
            let mut m = String::new();
            m.append("Specialist not needed for topic \"");
            m.append(topic);
            m.append("\": ");
            match reason {
                Some(x) => m.append(x.as_str()),
                None => m.append("provider declined"),
            }
            Err(SimseError::library(LibraryErrorCode::InvalidInput, m.as_str()))
        },
    }
}

/// Checks a generated specialist definition (`None` when the reply did not
/// parse): it must be valid.
pub fn check_generated_definition(topic: &str, parsed: Option<&LibrarianDefinition>) -> (r: Result<(), SimseError>)
    ensures
        parsed is None ==> (r matches Err(e) && input_error_is(e, "Failed to parse generated definition for topic \""@
            + topic@ + "\": invalid JSON response"@)),
        parsed matches Some(d) ==> (r is Ok <==> definition_errors(*d).len() == 0),
        match parsed {
            Some(d) => definition_errors(*d).len() > 0 ==> (r matches Err(e) && input_error_is(e,
                "Generated definition is invalid: "@ + join_seqs(definition_errors(*d), ", "@))),
            None => true,
        },
{
    match parsed {
        None => {
            let mut m = String::new();
            m.append("Failed to parse generated definition for topic \"");
            m.append(topic);
            m.append("\": invalid JSON response");
            Err(SimseError::library(LibraryErrorCode::InvalidInput, m.as_str()))
        },
        Some(d) => {
            let v = validate_definition(d);
            if v.valid {
                return Ok(());
            }
            let mut m = String::new();
            m.append("Generated definition is invalid: ");
            let joined = join_strings(v.errors.as_slice(), ", ");
            m.append(joined.as_str());
            Err(SimseError::library(LibraryErrorCode::InvalidInput, m.as_str()))
        },
    }
}

/// The prompt asking the default librarian to arbitrate between bids (one line per bid).
pub open spec fn arbitration_prompt_text(topic: Seq<char>, preview: Seq<char>, bids_description: Seq<char>) -> Seq<char> {
    "You are arbitrating between librarians to decide who should manage new content.\n\nTopic: "@ + topic + "\nContent preview: "@ + preview + "\n\nBids:\n"@ + bids_description + "\n\nChoose the best librarian. Return ONLY valid JSON:\n{\"winner\": \"librarian-name\", \"reason\": \"brief explanation\"}"@
}

/// The prompt asking the default librarian to arbitrate between bids (one line per bid).
pub fn arbitration_prompt(topic: &str, preview: &str, bids_description: &str) -> (r: String)
    ensures
        r@ == arbitration_prompt_text(topic@, preview@, bids_description@),
{
    let mut s = String::new();
    s.append("You are arbitrating between librarians to decide who should manage new content.\n\nTopic: ");
    s.append(topic);
    s.append("\nContent preview: ");
    s.append(preview);
    s.append("\n\nBids:\n");
    s.append(bids_description);
    s.append("\n\nChoose the best librarian. Return ONLY valid JSON:\n{\"winner\": \"librarian-name\", \"reason\": \"brief explanation\"}");
    s
}

/// The prompt asking whether a specialist is needed for a topic with the given volume count and samples.
pub open spec fn spawn_assessment_prompt_text(topic: Seq<char>, volume_count: Seq<char>, volume_samples: Seq<char>) -> Seq<char> {
    "Should a specialist librarian be created for the topic \""@ + topic + "\"?\nThere are currently "@ + volume_count + " volumes in this topic.\n\nVolume samples:\n"@ + volume_samples + "\n\nReturn ONLY valid JSON: {\"shouldSpawn\": true/false, \"reason\": \"brief explanation\"}"@
}

/// The prompt asking whether a specialist is needed for a topic with the given volume count and samples.
pub fn spawn_assessment_prompt(topic: &str, volume_count: &str, volume_samples: &str) -> (r: String)
    ensures
        r@ == spawn_assessment_prompt_text(topic@, volume_count@, volume_samples@),
{
    let mut s = String::new();
    s.append("Should a specialist librarian be created for the topic \"");
    s.append(topic);
    s.append("\"?\nThere are currently ");
    s.append(volume_count);
    s.append(" volumes in this topic.\n\nVolume samples:\n");
    s.append(volume_samples);
    s.append("\n\nReturn ONLY valid JSON: {\"shouldSpawn\": true/false, \"reason\": \"brief explanation\"}");
    s
}

/// The prompt asking for a specialist definition for a topic, avoiding the existing names.
pub open spec fn spawn_definition_prompt_text(topic: Seq<char>, existing_names: Seq<char>, topic_again: Seq<char>, topic_subtree: Seq<char>) -> Seq<char> {
    "Generate a librarian definition JSON for a specialist that will manage the topic \""@ + topic + "\".\n\nThe librarian should:\n- Have a descriptive kebab-case name related to the topic\n- Cover the topic and its subtopics\n- Have appropriate permissions\n- NOT use any of these existing names: "@ + existing_names + "\n\nReturn ONLY valid JSON matching this schema:\n{\n  \"name\": \"kebab-case-name\",\n  \"description\": \"what this librarian does\",\n  \"purpose\": \"detailed purpose statement\",\n  \"topics\": [\""@ + topic_again + "\", \""@ + topic_subtree + "/**\"],\n  \"permissions\": { \"add\": true, \"delete\": true, \"reorganize\": true },\n  \"thresholds\": { \"topicComplexity\": 50, \"escalateAt\": 100 }\n}"@
}

/// The prompt asking for a specialist definition for a topic, avoiding the existing names.
pub fn spawn_definition_prompt(topic: &str, existing_names: &str, topic_again: &str, topic_subtree: &str) -> (r: String)
    ensures
        r@ == spawn_definition_prompt_text(topic@, existing_names@, topic_again@, topic_subtree@),
{
    let mut s = String::new();
    s.append("Generate a librarian definition JSON for a specialist that will manage the topic \"");
    s.append(topic);
    s.append("\".\n\nThe librarian should:\n- Have a descriptive kebab-case name related to the topic\n- Cover the topic and its subtopics\n- Have appropriate permissions\n- NOT use any of these existing names: ");
    s.append(existing_names);
    s.append("\n\nReturn ONLY valid JSON matching this schema:\n{\n  \"name\": \"kebab-case-name\",\n  \"description\": \"what this librarian does\",\n  \"purpose\": \"detailed purpose statement\",\n  \"topics\": [\"");
    s.append(topic_again);
    s.append("\", \"");
    s.append(topic_subtree);
    s.append("/**\"],\n  \"permissions\": { \"add\": true, \"delete\": true, \"reorganize\": true },\n  \"thresholds\": { \"topicComplexity\": 50, \"escalateAt\": 100 }\n}");
    s
}

} // verus!
