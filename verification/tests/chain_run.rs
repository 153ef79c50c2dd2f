use simse_core::agent::ProviderRef;
use simse_core::chain::chain::Chain;
use simse_core::chain::run::{sub_step_outcome, ChainRun, StepPlan};
use simse_core::chain::template::PromptTemplate;
use simse_core::chain::types::{
    ChainStepConfig, MergeStrategy, ParallelConfig, ParallelSubResult, ParallelSubStepConfig, Provider,
};
use simse_core::error::{ChainErrorCode, SimseError, TemplateErrorCode};
use simse_core::values::ValueMap;

type Transform = fn(&str) -> String;
type Merge = fn(&[ParallelSubResult]) -> String;

fn step(name: &str, template: &str) -> ChainStepConfig<Transform, Merge> {
    ChainStepConfig {
        name: name.to_string(),
        template: PromptTemplate::new(template).unwrap(),
        provider: None,
        agent_id: None,
        server_name: None,
        system_prompt: None,
        output_transform: None,
        input_mapping: None,
        mcp_server_name: None,
        mcp_tool_name: None,
        mcp_arguments: None,
        store_to_memory: false,
        memory_metadata: None,
        parallel: None,
    }
}

fn sub(name: &str, template: &str) -> ParallelSubStepConfig<Transform> {
    ParallelSubStepConfig {
        name: name.to_string(),
        template: PromptTemplate::new(template).unwrap(),
        provider: None,
        agent_id: None,
        server_name: None,
        system_prompt: None,
        output_transform: None,
        mcp_server_name: None,
        mcp_tool_name: None,
        mcp_arguments: None,
    }
}

fn values(pairs: &[(&str, &str)]) -> ValueMap {
    let mut v = ValueMap::new();
    for (k, x) in pairs {
        v.insert(k, x);
    }
    v
}

#[test]
fn empty_chain_cannot_run() {
    let chain: Chain<Transform, Merge, ()> = Chain::new();
    match ChainRun::start(&chain, ValueMap::new()) {
        Err(SimseError::Chain { code, message }) => {
            assert_eq!(code, ChainErrorCode::Empty);
            assert_eq!(message, "Cannot run an empty chain -- add steps first");
        }
        _ => panic!("expected an empty-chain error"),
    }
}

#[test]
fn sequential_steps_feed_previous_output() {
    let mut chain: Chain<Transform, Merge, ()> = Chain::new();
    chain.add_step(step("summarize", "Summarize: {text}")).unwrap();
    chain.add_step(step("translate", "Translate: {previous_output}")).unwrap();
    let mut run = ChainRun::start(&chain, values(&[("text", "long story")])).unwrap();

    let req = match run.plan_next(&chain, false) {
        Ok(StepPlan::Single(r)) => r,
        _ => panic!("expected a single step"),
    };
    assert_eq!(req.prompt, "Summarize: long story");
    assert_eq!(req.step_index, 0);
    assert_eq!(req.total_steps, 2);
    assert_eq!(req.provider, Provider::Acp);
    assert!(matches!(req.provider_ref, ProviderRef::Acp { ref server_name } if server_name == "default"));
    run.complete_single(&chain, req.prompt, "short".to_string(), &None, None, None, 3);

    let req2 = match run.plan_next(&chain, false) {
        Ok(StepPlan::Single(r)) => r,
        _ => panic!("expected a single step"),
    };
    assert_eq!(req2.prompt, "Translate: short");
    run.complete_single(&chain, req2.prompt, "kurz".to_string(), &Some("m1".to_string()), None, None, 4);

    assert!(matches!(run.plan_next(&chain, false), Ok(StepPlan::Finished)));
    assert_eq!(run.values().get("translate").unwrap(), "kurz");
    assert_eq!(run.values().get("previous_output").unwrap(), "kurz");
    let results = run.finish();
    assert_eq!(results.len(), 2);
    assert_eq!(results[0].model, "unknown");
    assert_eq!(results[1].model, "m1");
    assert_eq!(results[1].step_index, 1);
}

#[test]
fn missing_variable_fails_the_step() {
    let mut chain: Chain<Transform, Merge, ()> = Chain::new();
    chain.add_step(step("s", "Hello {name}")).unwrap();
    let mut run = ChainRun::start(&chain, ValueMap::new()).unwrap();
    let failure = match run.plan_next(&chain, false) {
        Err(f) => f,
        _ => panic!("expected a failure"),
    };
    match failure.error {
        SimseError::Chain { code, message } => {
            assert_eq!(code, ChainErrorCode::StepFailed);
            assert_eq!(
                message,
                "Step \"s\" (index 0) template resolution failed: template error: Missing template variables: name"
            );
        }
        _ => panic!("expected a chain error"),
    }
    let info = failure.reported.unwrap();
    assert_eq!(info.step_name, "s");
    let (err, chain_info) = run.fail(SimseError::template(TemplateErrorCode::MissingVariables, "x"));
    assert!(matches!(err, SimseError::Chain { code: ChainErrorCode::ExecutionFailed, ref message }
        if message == "Chain execution failed: template error: x"));
    assert!(chain_info.completed_steps.is_empty());
}

#[test]
fn cancellation_stops_the_run() {
    let mut chain: Chain<Transform, Merge, ()> = Chain::new();
    chain.add_step(step("s", "Hi")).unwrap();
    let mut run = ChainRun::start(&chain, ValueMap::new()).unwrap();
    match run.plan_next(&chain, true) {
        Err(f) => {
            assert!(f.reported.is_none());
            assert!(matches!(f.error, SimseError::Chain { code: ChainErrorCode::ExecutionFailed, ref message }
                if message == "Chain execution was cancelled"));
        }
        _ => panic!("expected cancellation"),
    }
}

#[test]
fn provider_failure_message() {
    let mut chain: Chain<Transform, Merge, ()> = Chain::new();
    chain.add_step(step("s", "Hi")).unwrap();
    let mut run = ChainRun::start(&chain, ValueMap::new()).unwrap();
    assert!(matches!(run.plan_next(&chain, false), Ok(StepPlan::Single(_))));
    let f = run.single_failed(&chain, &SimseError::Other("boom".to_string()));
    assert!(matches!(f.error, SimseError::Chain { ref message, .. }
        if message == "Step \"s\" (index 0) provider \"acp\" failed: boom"));
    assert!(matches!(f.reported.unwrap().error, SimseError::Chain { ref message, .. }
        if message == "Provider \"acp\" failed: boom"));
}

#[test]
fn parallel_step_keyed_merge() {
    let mut chain: Chain<Transform, Merge, ()> = Chain::new();
    let mut s = step("fan", "unused");
    s.parallel = Some(ParallelConfig {
        sub_steps: vec![sub("a", "A {x}"), sub("b", "B {x}")],
        merge_strategy: MergeStrategy::Keyed,
        fail_tolerant: true,
        concat_separator: " | ".to_string(),
    });
    chain.add_step(s).unwrap();
    let mut run = ChainRun::start(&chain, values(&[("x", "1")])).unwrap();
    let (start, subs) = match run.plan_next(&chain, false) {
        Ok(StepPlan::Parallel { start, subs }) => (start, subs),
        _ => panic!("expected a parallel step"),
    };
    assert_eq!(start.prompt, "[parallel: 2 sub-steps]");
    assert_eq!(subs[0].request.step_name, "fan.a");
    assert_eq!(subs[1].request.prompt, "B 1");

    let (ok_a, reported_a) = sub_step_outcome(&subs[0], "ra".to_string(), &None, None, None, 1);
    assert_eq!(reported_a.step_name, "fan.a");
    let outcomes = vec![Ok(ok_a), Err(SimseError::Other("down".to_string()))];
    let settled = run.settle_parallel(&chain, outcomes).ok().unwrap();
    assert_eq!(settled.len(), 1);
    run.complete_parallel(&chain, settled, None, 9);
    assert_eq!(run.values().get("fan.a").unwrap(), "ra");
    assert_eq!(run.values().get("fan").unwrap(), "ra");
    let results = run.finish();
    assert_eq!(results[0].model, "parallel:1");
    assert_eq!(results[0].input, "[parallel: 2 sub-steps]");
}

#[test]
fn strict_parallel_step_fails_on_first_error() {
    let mut chain: Chain<Transform, Merge, ()> = Chain::new();
    let mut s = step("fan", "unused");
    s.parallel = Some(ParallelConfig {
        sub_steps: vec![sub("a", "A"), sub("b", "B")],
        merge_strategy: MergeStrategy::Concat,
        fail_tolerant: false,
        concat_separator: "\n\n".to_string(),
    });
    chain.add_step(s).unwrap();
    let mut run = ChainRun::start(&chain, ValueMap::new()).unwrap();
    assert!(matches!(run.plan_next(&chain, false), Ok(StepPlan::Parallel { .. })));
    let outcomes = vec![Err(SimseError::Other("first".to_string())), Err(SimseError::Other("second".to_string()))];
    match run.settle_parallel(&chain, outcomes) {
        Err(f) => assert!(matches!(f.error, SimseError::Chain { ref message, .. }
            if message == "Step \"fan\" (index 0): parallel sub-step failed: first")),
        Ok(_) => panic!("expected a failure"),
    }
    let all_failed = vec![Err(SimseError::Other("x".to_string()))];
    let mut chain2: Chain<Transform, Merge, ()> = Chain::new();
    let mut t = step("fan", "unused");
    t.parallel = Some(ParallelConfig {
        sub_steps: vec![sub("a", "A"), sub("b", "B")],
        merge_strategy: MergeStrategy::Concat,
        fail_tolerant: true,
        concat_separator: "\n\n".to_string(),
    });
    chain2.add_step(t).unwrap();
    let mut run2 = ChainRun::start(&chain2, ValueMap::new()).unwrap();
    assert!(matches!(run2.plan_next(&chain2, false), Ok(StepPlan::Parallel { .. })));
    match run2.settle_parallel(&chain2, all_failed) {
        Err(f) => assert!(matches!(f.error, SimseError::Chain { ref message, .. }
            if message == "Step \"fan\" (index 0): all parallel sub-steps failed")),
        Ok(_) => panic!("expected a failure"),
    }
}

#[test]
fn steps_keep_insertion_order_and_refused_steps_are_skipped() {
    let mut chain: Chain<Transform, Merge, ()> = Chain::new();
    chain.add_step(step("a", "A")).unwrap();
    let mut bad = step("bad", "B");
    bad.provider = Some(Provider::Mcp);
    assert!(chain.add_step(bad).is_err());
    chain.add_step(step("a", "again")).unwrap();
    chain.add_step(step("c", "C")).unwrap();
    assert_eq!(chain.len(), 3);
    let names: Vec<&str> = chain.step_configs().iter().map(|s| s.name.as_str()).collect();
    assert_eq!(names, vec!["a", "a", "c"]);
}
