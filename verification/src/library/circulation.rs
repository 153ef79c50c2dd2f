//! The circulation desk: a queue of background maintenance jobs for the
//! library (extraction, compendium, reorganization, optimization).
//!
//! The application holds the channel the jobs travel on and awaits the
//! library and the librarians; the desk's state (pending count, whether it
//! is processing, whether it was disposed) and every decision of a job are
//! taken here.

use vstd::prelude::*;
use crate::error::{LibraryErrorCode, SimseError};
use crate::library::librarian::{EntryType, TurnContext, entry_type_name};
use crate::text::{join_seqs, join_strings, views_of};
use crate::values::ValueMap;

verus! {

/// The topic catalog the desk files volumes under: it resolves a proposed
/// topic to the one in use, and records moves and merges of topics.
pub trait TopicCatalog {
    fn resolve(&self, proposed_topic: &str) -> String;
    fn relocate(&self, volume_id: &str, new_topic: &str);
    fn merge(&self, source_topic: &str, target_topic: &str);
}

/// Thresholds controlling when the maintenance jobs are triggered.
#[derive(Debug, Clone)]
pub struct CirculationThresholds {
    /// Minimum entries in a topic before a compendium is made.
    pub compendium_min_entries: usize,
    /// Volumes in a topic from which it is reorganized.
    pub reorganization_max_volumes_per_topic: usize,
    /// Topic volume count from which optimization is escalated.
    pub optimization_topic_threshold: usize,
    /// Global volume count from which every topic is optimized.
    pub optimization_global_threshold: usize,
    /// Model used for optimization; without it nothing is optimized.
    pub optimization_model_id: Option<String>,
    /// Topic volume count from which a specialist is spawned.
    pub spawning_complexity_threshold: Option<usize>,
}

impl Default for CirculationThresholds {
    fn default() -> (r: Self)
        ensures
            r.compendium_min_entries == 10,
            r.reorganization_max_volumes_per_topic == 30,
            r.optimization_topic_threshold == 50,
            r.optimization_global_threshold == 500,
            r.optimization_model_id is None,
            r.spawning_complexity_threshold is None,
    {
        CirculationThresholds {
            compendium_min_entries: 10,
            reorganization_max_volumes_per_topic: 30,
            optimization_topic_threshold: 50,
            optimization_global_threshold: 500,
            optimization_model_id: None,
            spawning_complexity_threshold: None,
        }
    }
}

/// Minimal duplicate check result.
#[derive(Debug, Clone, Copy)]
pub struct DuplicateCheckResult {
    pub is_duplicate: bool,
}

/// A background job for the circulation desk.
#[derive(Debug, Clone)]
pub enum Job {
    /// Extract memories from a conversation turn.
    Extraction(TurnContext),
    Compendium { topic: String },
    Reorganization { topic: String },
    Optimization { topic: String },
}

/// A desk needs a default librarian or a registry to route jobs to.
pub fn check_desk_options(has_librarian: bool, has_registry: bool) -> (r: Result<(), SimseError>)
    ensures
        r is Ok <==> (has_librarian || has_registry),
        r matches Err(e) ==> e matches SimseError::Library { code: LibraryErrorCode::InvalidInput, .. }
            && e.message_text() == Some("CirculationDesk requires either librarian or registry"@),
{
    if !has_librarian && !has_registry {
        return Err(SimseError::library(LibraryErrorCode::InvalidInput,
            "CirculationDesk requires either librarian or registry"));
    }
    Ok(())
}

/// The state of a circulation desk: how many jobs wait, whether a drain is
/// running and whether the desk was disposed.
#[derive(Debug, Clone, Copy, PartialEq, Eq, Structural)]
pub struct DeskState {
    pub pending: usize,
    pub processing: bool,
    pub disposed: bool,
}

impl DeskState {
    /// A fresh desk: no job, not processing, not disposed.
    pub fn new() -> (r: Self)
        ensures
            r == (DeskState { pending: 0, processing: false, disposed: false }),
    {
        DeskState { pending: 0, processing: false, disposed: false }
    }

    /// Whether a job offered now is queued: a disposed desk drops it.
    pub fn accepts_jobs(&self) -> (r: bool)
        ensures
            r == !self.disposed,
    {
        !self.disposed
    }

    /// Records a job that was queued.
    pub fn job_queued(&mut self)
        requires
            !old(self).disposed,
            old(self).pending < usize::MAX,
        ensures
            *final(self) == (DeskState { pending: (old(self).pending + 1) as usize, ..*old(self) }),
    {
        self.pending = self.pending + 1;
    }

    /// Starts a drain: refused while one runs or after disposal.
    pub fn begin_drain(&mut self) -> (r: bool)
        ensures
            r == (!old(self).processing && !old(self).disposed),
            r ==> *final(self) == (DeskState { processing: true, ..*old(self) }),
            !r ==> *final(self) == *old(self),
    {
        if self.processing || self.disposed {
            return false;
        }
        self.processing = true;
        true
    }

    /// Records a job taken off the queue (for processing or to discard it).
    pub fn job_taken(&mut self)
        requires
            old(self).pending > 0,
        ensures
            *final(self) == (DeskState { pending: (old(self).pending - 1) as usize, ..*old(self) }),
    {
        self.pending = self.pending - 1;
    }

    /// Ends a drain.
    pub fn end_drain(&mut self)
        ensures
            *final(self) == (DeskState { processing: false, ..*old(self) }),
    {
        self.processing = false;
    }

    /// Marks the desk disposed; the waiting jobs are then discarded.
    pub fn dispose(&mut self)
        ensures
            *final(self) == (DeskState { disposed: true, ..*old(self) }),
    {
        self.disposed = true;
    }
}

/// Law: a disposed desk stays disposed and accepts no job, whatever is done
/// to it.
pub proof fn law_disposed_desk_accepts_nothing(s: DeskState)
    requires
        s.disposed,
    ensures
        (DeskState { processing: true, ..s }).disposed,
        (DeskState { processing: false, ..s }).disposed,
        s.pending > 0 ==> (DeskState { pending: (s.pending - 1) as usize, ..s }).disposed,
        !(!s.processing && !s.disposed),
{
}

/// Whether a topic with `volumes` volumes gets a compendium.
pub fn compendium_due(t: &CirculationThresholds, volumes: usize) -> (r: bool)
    ensures
        r == (volumes >= t.compendium_min_entries),
{
    volumes >= t.compendium_min_entries
}

/// Whether a topic with `volumes` volumes is reorganized.
pub fn reorganization_due(t: &CirculationThresholds, volumes: usize) -> (r: bool)
    ensures
        r == (volumes >= t.reorganization_max_volumes_per_topic),
{
    volumes >= t.reorganization_max_volumes_per_topic
}

/// Whether a specialist is spawned for a topic with `volumes` volumes: only
/// with a registry and a configured threshold that is reached.
pub fn spawning_due(t: &CirculationThresholds, has_registry: bool, volumes: usize) -> (r: bool)
    ensures
        r == (has_registry && (t.spawning_complexity_threshold matches Some(th) && volumes >= th)),
{
    match t.spawning_complexity_threshold {
        Some(th) => has_registry && volumes >= th,
        None => false,
    }
}

/// What escalation does after an extraction touched a topic.
#[derive(Debug, Clone, Copy, PartialEq, Eq, Structural)]
pub enum Escalation {
    /// Optimization is not configured, or no threshold is reached.
    Nothing,
    /// The topic itself is optimized.
    OptimizeTopic,
    /// The global threshold is reached: every topic is optimized.
    OptimizeAllTopics,
}

/// Decides escalation from the topic's volume count and the library's total
/// volume count (each `None` when the library could not tell).
pub fn escalation(t: &CirculationThresholds, topic_volumes: Option<usize>, total_volumes: Option<usize>)
    -> (r: Escalation)
    ensures
        t.optimization_model_id is None ==> r == Escalation::Nothing,
        t.optimization_model_id is Some ==> r == (
            if topic_volumes matches Some(n) && n >= t.optimization_topic_threshold {
                Escalation::OptimizeTopic
            } else if total_volumes matches Some(n) && n >= t.optimization_global_threshold {
                Escalation::OptimizeAllTopics
            } else {
                Escalation::Nothing
            }),
{
    if t.optimization_model_id.is_none() {
        return Escalation::Nothing;
    }
    match topic_volumes {
        Some(n) => if n >= t.optimization_topic_threshold {
            return Escalation::OptimizeTopic;
        },
        None => {},
    }
    match total_volumes {
        Some(n) => if n >= t.optimization_global_threshold {
            return Escalation::OptimizeAllTopics;
        },
        None => {},
    }
    Escalation::Nothing
}

/// The optimization jobs for a list of topics, in order.
pub fn optimization_jobs(topics: &[String]) -> (r: Vec<Job>)
    ensures
        r@.len() == topics@.len(),
        forall|i: int| 0 <= i < r@.len() ==> (#[trigger] r@[i] matches Job::Optimization { topic } && topic@ == topics@[i]@),
{
    let mut jobs: Vec<Job> = Vec::new();
    let mut i: usize = 0;
    while i < topics.len()
        invariant
            i <= topics@.len(),
            jobs@.len() == i,
            forall|j: int| 0 <= j < i ==> (#[trigger] jobs@[j] matches Job::Optimization { topic } && topic@ == topics@[j]@),
        decreases topics@.len() - i,
    {
        jobs.push(Job::Optimization { topic: topics[i].clone() });
        i = i + 1;
    }
    jobs
}

/// The metadata a new volume extracted from a conversation is stored with:
/// its topic, its tags joined with commas and its entry type.
pub fn extracted_volume_metadata(topic: &str, tags: &[String], entry_type: EntryType) -> (r: ValueMap)
    ensures
        r.wf(),
        r.view_map() == Map::<Seq<char>, Seq<char>>::empty().insert("topic"@, topic@).insert(
            "tags"@, join_seqs(views_of(tags@), ","@)).insert("entryType"@, entry_type_name(entry_type)),
{
    let mut m = ValueMap::new();
    m.insert("topic", topic);
    let joined = join_strings(tags, ",");
    m.insert("tags", joined.as_str());
    m.insert("entryType", entry_type.as_str());
    m
}

/// The metadata an optimization summary is stored with.
pub fn compendium_volume_metadata(topic: &str) -> (r: ValueMap)
    ensures
        r.wf(),
        r.view_map() == Map::<Seq<char>, Seq<char>>::empty().insert("topic"@, topic@).insert(
            "entryType"@, "compendium"@),
{
    let mut m = ValueMap::new();
    m.insert("topic", topic);
    m.insert("entryType", "compendium");
    m
}

/// The topics touched by an extraction, each once, in first-seen order.
pub fn add_touched_topic(topics: &mut Vec<String>, topic: &str)
    ensures
        views_of(old(topics)@).contains(topic@) ==> views_of(final(topics)@) == views_of(old(topics)@),
        !views_of(old(topics)@).contains(topic@) ==> views_of(final(topics)@) == views_of(old(topics)@).push(topic@),
{
    let mut i: usize = 0;
    while i < topics.len()
        invariant
            i <= topics@.len(),
            topics@ == old(topics)@,
            forall|j: int| 0 <= j < i ==> #[trigger] topics@[j]@ != topic@,
        decreases topics@.len() - i,
    {
        if crate::text::str_eq(topics[i].as_str(), topic) {
            assert(views_of(topics@)[i as int] == topic@);
            return;
        }
        i = i + 1;
    }
    assert(!views_of(old(topics)@).contains(topic@)) by {
        if views_of(old(topics)@).contains(topic@) {
            let j = choose|j: int| 0 <= j < views_of(old(topics)@).len() && views_of(old(topics)@)[j] == topic@;
            assert(topics@[j]@ == topic@);
        }
    }
    topics.push(topic.to_owned());
    assert(views_of(topics@) =~= views_of(old(topics)@).push(topic@));
}

} // verus!
