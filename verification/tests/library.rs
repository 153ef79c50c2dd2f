use simse_core::library::circulation::{
    add_touched_topic, check_desk_options, compendium_due, compendium_volume_metadata, escalation,
    extracted_volume_metadata, optimization_jobs, reorganization_due, spawning_due, CirculationThresholds,
    DeskState, Escalation, Job,
};
use simse_core::library::librarian::{
    extraction_from_fields, numbered_volumes, optimization_from_fields, parse_entry_type, parse_reorg,
    summarize_prompt, topic_list, truncate_str, volume_list, EntryType, ExtractedMemoryFields, OptimizationFields,
    ReorgFields, ReorgMergeFields, ReorgMoveFields, Volume,
};
use simse_core::library::librarian_def::{default_definition, LibrarianDefinition};
use simse_core::library::registry::{
    accept_arbitration, check_generated_definition, fallback_reason, route, spawn_assessment,
    volume_samples, LibrarianIndex, Routing,
};
use simse_core::error::SimseError;

fn s(x: &str) -> String {
    x.to_string()
}

#[test]
fn thresholds_default() {
    let t = CirculationThresholds::default();
    assert_eq!(t.compendium_min_entries, 10);
    assert_eq!(t.reorganization_max_volumes_per_topic, 30);
    assert_eq!(t.optimization_topic_threshold, 50);
    assert_eq!(t.optimization_global_threshold, 500);
    assert!(t.optimization_model_id.is_none());
    assert!(compendium_due(&t, 10));
    assert!(!compendium_due(&t, 9));
    assert!(reorganization_due(&t, 30));
    assert!(!spawning_due(&t, true, 1000));
}

#[test]
fn desk_requires_librarian_or_registry() {
    assert!(check_desk_options(true, false).is_ok());
    assert!(check_desk_options(false, true).is_ok());
    match check_desk_options(false, false) {
        Err(SimseError::Library { message, .. }) => {
            assert_eq!(message, "CirculationDesk requires either librarian or registry")
        }
        _ => panic!("expected an error"),
    }
}

#[test]
fn desk_state_transitions() {
    let mut d = DeskState::new();
    assert!(d.accepts_jobs());
    d.job_queued();
    d.job_queued();
    assert_eq!(d.pending, 2);
    assert!(d.begin_drain());
    assert!(!d.begin_drain());
    d.job_taken();
    d.end_drain();
    assert_eq!(d.pending, 1);
    d.dispose();
    assert!(!d.accepts_jobs());
    assert!(!d.begin_drain());
}

#[test]
fn escalation_decisions() {
    let mut t = CirculationThresholds::default();
    assert_eq!(escalation(&t, Some(1000), Some(10_000)), Escalation::Nothing);
    t.optimization_model_id = Some(s("big"));
    assert_eq!(escalation(&t, Some(50), None), Escalation::OptimizeTopic);
    assert_eq!(escalation(&t, Some(49), Some(500)), Escalation::OptimizeAllTopics);
    assert_eq!(escalation(&t, None, Some(499)), Escalation::Nothing);
    let jobs = optimization_jobs(&[s("a"), s("b")]);
    assert!(matches!(&jobs[1], Job::Optimization { topic } if topic == "b"));
}

#[test]
fn volume_metadata() {
    let m = extracted_volume_metadata("code/rust", &[s("x"), s("y")], EntryType::Decision);
    assert_eq!(m.get("topic").unwrap(), "code/rust");
    assert_eq!(m.get("tags").unwrap(), "x,y");
    assert_eq!(m.get("entryType").unwrap(), "decision");
    let c = compendium_volume_metadata("t");
    assert_eq!(c.get("entryType").unwrap(), "compendium");
    let mut topics = vec![s("a")];
    add_touched_topic(&mut topics, "b");
    add_touched_topic(&mut topics, "a");
    assert_eq!(topics, vec![s("a"), s("b")]);
}

#[test]
fn truncation_respects_char_boundaries() {
    assert_eq!(truncate_str("hello", 10), "hello");
    assert_eq!(truncate_str("hello", 3), "hel");
    assert_eq!(truncate_str("héllo", 2), "h");
    assert_eq!(truncate_str("héllo", 3), "hé");
    assert_eq!(truncate_str("", 0), "");
}

#[test]
fn extraction_skips_incomplete_memories() {
    let fields = vec![
        ExtractedMemoryFields { text: Some(s("t1")), topic: Some(s("a")), tags: None, entry_type: Some(s("fact")) },
        ExtractedMemoryFields { text: Some(s("t2")), topic: None, tags: None, entry_type: Some(s("fact")) },
        ExtractedMemoryFields { text: Some(s("t3")), topic: Some(s("b")), tags: Some(vec![s("k")]), entry_type: Some(s("idea")) },
        ExtractedMemoryFields { text: Some(s("t4")), topic: Some(s("c")), tags: Some(vec![s("k")]), entry_type: Some(s("observation")) },
    ];
    let r = extraction_from_fields(Some(fields));
    assert_eq!(r.memories.len(), 2);
    assert_eq!(r.memories[0].text, "t1");
    assert!(r.memories[0].tags.is_empty());
    assert_eq!(r.memories[1].entry_type, EntryType::Observation);
    assert_eq!(r.memories[1].tags, vec![s("k")]);
    assert!(extraction_from_fields(None).memories.is_empty());
    assert_eq!(parse_entry_type("decision"), Some(EntryType::Decision));
    assert_eq!(parse_entry_type("Decision"), None);
}

#[test]
fn reorganization_and_optimization_parsing() {
    let f = ReorgFields {
        moves: Some(vec![
            ReorgMoveFields { volume_id: Some(s("v1")), new_topic: Some(s("x")) },
            ReorgMoveFields { volume_id: None, new_topic: Some(s("y")) },
        ]),
        new_subtopics: None,
        merges: Some(vec![ReorgMergeFields { source: Some(s("a")), target: Some(s("b")) }]),
    };
    let plan = parse_reorg(&f);
    assert_eq!(plan.moves.len(), 1);
    assert_eq!(plan.moves[0].volume_id, "v1");
    assert!(plan.new_subtopics.is_empty());
    assert_eq!(plan.merges[0].target, "b");
    let o = optimization_from_fields(
        Some(OptimizationFields { pruned: Some(vec![s("p")]), summary: None, reorganization: None }),
        "m",
    );
    assert_eq!(o.pruned, vec![s("p")]);
    assert_eq!(o.summary, "");
    assert_eq!(o.model_used, "m");
    assert!(optimization_from_fields(None, "m").pruned.is_empty());
}

#[test]
fn volume_rendering_and_prompts() {
    let vols = vec![Volume { id: s("1"), text: s("alpha") }, Volume { id: s("2"), text: s("beta") }];
    assert_eq!(volume_list(&vols), "- [1] alpha\n- [2] beta");
    assert_eq!(topic_list(&[s("rust"), s("rust/async")]), "- rust\n- rust/async");
    assert_eq!(topic_list(&[]), "");
    let combined = numbered_volumes(&[s("alpha"), s("beta")]);
    assert_eq!(combined, "--- Volume 1 ---\nalpha\n\n--- Volume 2 ---\nbeta");
    assert_eq!(
        summarize_prompt("t", "X"),
        "Summarize the following volumes from topic \"t\" into a single concise summary that preserves all key information:\n\nX"
    );
    let long = "a".repeat(150);
    let samples = volume_samples(&[Volume { id: s("1"), text: long }, Volume { id: s("2"), text: s("b") }]);
    assert_eq!(samples, format!("- {}\n- b", "a".repeat(100)));
}

fn def(name: &str, topics: &[&str]) -> LibrarianDefinition {
    let mut d = default_definition();
    d.name = s(name);
    d.topics = topics.iter().map(|t| s(t)).collect();
    d
}

#[test]
fn registry_index_and_routing() {
    let mut idx = LibrarianIndex::new();
    idx.register(default_definition()).unwrap();
    idx.register(def("rust-expert", &["code/rust/**"])).unwrap();
    idx.register(def("code-general", &["code/**"])).unwrap();
    match idx.register(def("rust-expert", &["x"])) {
        Err(SimseError::Library { message, .. }) => assert_eq!(message, "Librarian \"rust-expert\" is already registered"),
        _ => panic!("expected a duplicate error"),
    }
    match idx.register(def("Bad Name", &["x"])) {
        Err(SimseError::Library { message, .. }) => assert!(message.starts_with("Invalid librarian definition: name must be kebab-case")),
        _ => panic!("expected a validation error"),
    }
    assert_eq!(idx.candidates("code/rust/async"), vec![s("default"), s("rust-expert"), s("code-general")]);
    assert!(idx.unregister("default").is_err());
    idx.unregister("default-missing").unwrap();
    idx.unregister("code-general").unwrap();
    assert!(!idx.contains("code-general"));
    assert_eq!(idx.candidates("code/python"), vec![s("default")]);

    match route(vec![]) {
        Routing::Chosen { winner, reason } => {
            assert_eq!(winner, "default");
            assert_eq!(reason, "No specialist matched the topic; using default librarian.");
        }
        _ => panic!(),
    }
    assert!(matches!(route(vec![s("a")]), Routing::Chosen { ref winner, .. } if winner == "a"));
    assert!(matches!(route(vec![s("a"), s("b")]), Routing::Bidding(ref n) if n.len() == 2));
}

#[test]
fn arbitration_and_spawning() {
    let bidders = vec![s("a"), s("b")];
    assert_eq!(accept_arbitration(&bidders, Some(s("b")), None), Some((s("b"), s("Arbitration by default librarian."))));
    assert_eq!(accept_arbitration(&bidders, Some(s("c")), Some(s("r"))), None);
    assert_eq!(accept_arbitration(&bidders, None, None), None);
    assert_eq!(fallback_reason(), "Highest bidder wins (arbitration fallback).");
    assert!(spawn_assessment("t", Some((Some(true), None))).is_ok());
    match spawn_assessment("t", Some((Some(false), None))) {
        Err(SimseError::Library { message, .. }) => assert_eq!(message, "Specialist not needed for topic \"t\": provider declined"),
        _ => panic!(),
    }
    match spawn_assessment("t", None) {
        Err(SimseError::Library { message, .. }) => {
            assert_eq!(message, "Failed to parse spawn assessment for topic \"t\": invalid JSON response")
        }
        _ => panic!(),
    }
    let mut bad = default_definition();
    bad.purpose = String::new();
    match check_generated_definition("t", Some(&bad)) {
        Err(SimseError::Library { message, .. }) => {
            assert_eq!(message, "Generated definition is invalid: purpose must be a non-empty string")
        }
        _ => panic!(),
    }
    assert!(check_generated_definition("t", Some(&default_definition())).is_ok());
}
