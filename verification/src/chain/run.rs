//! Running a chain as a state machine.
//!
//! The application executes each request against its provider (awaiting
//! the agent, possibly several sub-steps at once), applies the step's output
//! transform and fires the callbacks. What each step sends, how results and
//! failures are recorded, how the chain values evolve and what the run
//! returns is decided here.

use vstd::prelude::*;
use crate::agent::{ProviderRef, TokenUsage, ToolMetrics};
use crate::chain::chain::{
    apply_input_mapping, chain_error_is, clone_opt, effective_provider, keyed_values, mapped_values,
    merge_outputs, model_or_unknown, opt_view, outputs_of, parallel_model, parallel_prompt, provider_ref_for,
    record_parallel_outputs, record_step_output, settle_sub_results, successes, to_provider_ref, Chain,
    SettleFailure,
};
use crate::chain::template::{missing_vars, substituted, PromptTemplate};
use crate::chain::types::{
    ChainErrorInfo, ChainStepConfig, MergeStrategy, ParallelSubResult, ParallelSubStepConfig, Provider,
    StepErrorInfo, StepResult, StepStartInfo,
};
use crate::error::{ChainErrorCode, SimseError};
use crate::text::{decimal, join_seqs, push_decimal};
use crate::values::ValueMap;

verus! {

/// The text a template gives for the values, or `None` when a variable has
/// no value.
pub open spec fn formatted(t: PromptTemplate, values: Map<Seq<char>, Seq<char>>) -> Option<Seq<char>> {
    if missing_vars(t.variables_view(), values).len() > 0 {
        None
    } else {
        Some(substituted(t.raw_view(), t.variables_view(), values, t.variables_view().len()))
    }
}

/// The text of the error a template reports for missing variables.
pub open spec fn format_error_text(t: PromptTemplate, values: Map<Seq<char>, Seq<char>>) -> Seq<char> {
    "template error: "@ + "Missing template variables: "@ + join_seqs(missing_vars(t.variables_view(), values), ", "@)
}

/// The chain values a step sees: the values after its input mapping.
pub open spec fn values_for_step<T, F>(values: Map<Seq<char>, Seq<char>>, step: ChainStepConfig<T, F>)
    -> Map<Seq<char>, Seq<char>> {
    match step.input_mapping {
        Some(m) => mapped_values(values, m.pairs_view(), m.pairs_view().len()),
        None => values,
    }
}

/// The provider a step runs against: its own, or ACP.
pub open spec fn provider_or_acp(p: Option<Provider>) -> Provider {
    match p {
        Some(p) => p,
        None => Provider::Acp,
    }
}

/// What the application sends to a provider for one step or sub-step.
#[derive(Debug, Clone)]
pub struct StepRequest {
    /// The name the step is reported under (`{step}.{sub-step}` for a sub-step).
    pub step_name: String,
    pub step_index: usize,
    pub total_steps: usize,
    pub provider: Provider,
    pub provider_ref: ProviderRef,
    pub prompt: String,
    pub agent_id: Option<String>,
    pub server_name: Option<String>,
    pub system_prompt: Option<String>,
}

/// The request of one sub-step of a parallel step.
#[derive(Debug, Clone)]
pub struct SubStepRequest {
    pub sub_step_name: String,
    pub request: StepRequest,
}

/// What the next step of a run is.
#[derive(Debug)]
pub enum StepPlan {
    /// Every step ran.
    Finished,
    /// A single request.
    Single(StepRequest),
    /// A parallel step: `start` is reported for the step, then every
    /// sub-step request runs.
    Parallel { start: StepStartInfo, subs: Vec<SubStepRequest> },
}

/// A step that failed: the error that ends the run, the start of the step
/// if it was reported before the failure, and the error reported for the
/// step (none for a cancellation).
#[derive(Debug)]
pub struct StepFailure {
    pub error: SimseError,
    pub started: Option<StepStartInfo>,
    pub reported: Option<StepErrorInfo>,
}

/// `q` is the request of a single step for the given prompt.
pub open spec fn single_request_matches<T, F>(q: StepRequest, step: ChainStepConfig<T, F>, index: nat, total: nat,
    prompt: Seq<char>) -> bool {
    &&& q.step_name@ == step.name@
    &&& q.step_index == index
    &&& q.total_steps == total
    &&& q.provider == provider_or_acp(step.provider)
    &&& provider_ref_for(q.provider_ref, q.provider, step.server_name, step.mcp_server_name, step.mcp_tool_name)
    &&& q.prompt@ == prompt
    &&& opt_view(q.agent_id) == opt_view(step.agent_id)
    &&& opt_view(q.server_name) == opt_view(step.server_name)
    &&& opt_view(q.system_prompt) == opt_view(step.system_prompt)
}

/// `q` is the request of a sub-step of step `step_name` for the given prompt.
pub open spec fn sub_request_matches<T>(q: SubStepRequest, sub: ParallelSubStepConfig<T>, step_name: Seq<char>,
    index: nat, total: nat, prompt: Seq<char>) -> bool {
    &&& q.sub_step_name@ == sub.name@
    &&& q.request.step_name@ == step_name + "."@ + sub.name@
    &&& q.request.step_index == index
    &&& q.request.total_steps == total
    &&& q.request.provider == provider_or_acp(sub.provider)
    &&& provider_ref_for(q.request.provider_ref, q.request.provider, sub.server_name, sub.mcp_server_name,
        sub.mcp_tool_name)
    &&& q.request.prompt@ == prompt
    &&& opt_view(q.request.agent_id) == opt_view(sub.agent_id)
    &&& opt_view(q.request.server_name) == opt_view(sub.server_name)
    &&& opt_view(q.request.system_prompt) == opt_view(sub.system_prompt)
}

/// `s` is the start reported for a parallel step with `n` sub-steps.
pub open spec fn parallel_start_matches(s: StepStartInfo, step_name: Seq<char>, index: nat, total: nat, n: nat) -> bool {
    &&& s.step_name@ == step_name
    &&& s.step_index == index
    &&& s.total_steps == total
    &&& s.provider == Provider::Acp
    &&& s.prompt@ == "[parallel: "@ + decimal(n) + " sub-steps]"@
}

/// Every one of the first `n` sub-step templates resolves.
pub open spec fn subs_resolve<T>(subs: Seq<ParallelSubStepConfig<T>>, values: Map<Seq<char>, Seq<char>>, n: int) -> bool {
    forall|k: int| 0 <= k < n ==> #[trigger] formatted(subs[k].template, values) is Some
}

/// `f` reports a failure with the given error text and step error text.
pub open spec fn failure_is(f: StepFailure, step_name: Seq<char>, index: nat, error: Seq<char>, reported: Seq<char>) -> bool {
    &&& chain_error_is(f.error, ChainErrorCode::StepFailed, error)
    &&& f.reported matches Some(info) && info.step_name@ == step_name && info.step_index == index
        && chain_error_is(info.error, ChainErrorCode::StepFailed, reported)
}

/// `f` fails the step of that name and index with a `StepFailed` chain
/// error, reported with a `StepFailed` chain error too, whatever the texts.
pub open spec fn fails_step(f: StepFailure, step_name: Seq<char>, index: nat) -> bool {
    &&& f.error matches SimseError::Chain { code: ChainErrorCode::StepFailed, .. }
    &&& f.reported matches Some(info) && info.step_name@ == step_name && info.step_index == index
        && info.error matches SimseError::Chain { code: ChainErrorCode::StepFailed, .. }
}

/// The state of a chain run: the number of steps, the next step to plan,
/// the results recorded so far and the chain values.
pub struct ChainRun {
    total_steps: usize,
    next: usize,
    results: Vec<StepResult>,
    values: ValueMap,
}

impl ChainRun {
    pub closed spec fn total_view(&self) -> nat {
        self.total_steps as nat
    }

    /// The number of steps planned so far.
    pub closed spec fn next_view(&self) -> nat {
        self.next as nat
    }

    pub closed spec fn results_view(&self) -> Seq<StepResult> {
        self.results@
    }

    pub closed spec fn values_view(&self) -> Map<Seq<char>, Seq<char>> {
        self.values.view_map()
    }

    pub closed spec fn values_wf(&self) -> bool {
        self.values.wf()
    }

    /// A planned step has no result yet.
    pub open spec fn in_step(&self) -> bool {
        self.results_view().len() + 1 == self.next_view()
    }

    /// Every planned step has its result.
    pub open spec fn between_steps(&self) -> bool {
        self.results_view().len() == self.next_view()
    }

    /// At most one planned step lacks its result, and the results are in
    /// step order.
    pub open spec fn wf(&self) -> bool {
        &&& self.next_view() <= self.total_view()
        &&& (self.in_step() || self.between_steps())
        &&& self.values_wf()
        &&& forall|i: int| 0 <= i < self.results_view().len() ==> #[trigger] self.results_view()[i].step_index == i
    }

    /// Starts a run of `chain` with the initial values. An empty chain is an
    /// error.
    pub fn start<T, F, C>(chain: &Chain<T, F, C>, initial_values: ValueMap) -> (r: Result<Self, SimseError>)
        requires
            initial_values.wf(),
        ensures
            r is Err <==> chain.steps_view().len() == 0,
            r matches Err(e) ==> chain_error_is(e, ChainErrorCode::Empty, "Cannot run an empty chain -- add steps first"@),
            r matches Ok(run) ==> {
                &&& run.wf()
                &&& run.between_steps()
                &&& run.total_view() == chain.steps_view().len()
                &&& run.next_view() == 0
                &&& run.results_view().len() == 0
                &&& run.values_view() == initial_values.view_map()
            },
    {
        if chain.is_empty() {
            return Err(SimseError::chain(ChainErrorCode::Empty, "Cannot run an empty chain -- add steps first"));
        }
        Ok(ChainRun { total_steps: chain.len(), next: 0, results: Vec::new(), values: initial_values })
    }

    /// The current chain values.
    pub fn values(&self) -> (r: &ValueMap)
        requires
            self.wf(),
        ensures
            r.wf(),
            r.view_map() == self.values_view(),
    {
        &self.values
    }

    /// The results recorded so far.
    pub fn results(&self) -> (r: &[StepResult])
        ensures
            r@ == self.results_view(),
    {
        self.results.as_slice()
    }

    /// Plans the next step: the run is finished after the last step; a
    /// cancellation ends it; otherwise the step's input mapping is applied
    /// and its template (or, for a parallel step, every sub-step template)
    /// is resolved into the request(s) to send.
    pub fn plan_next<T, F, C>(&mut self, chain: &Chain<T, F, C>, cancelled: bool) -> (r: Result<StepPlan, StepFailure>)
        requires
            old(self).wf(),
            old(self).between_steps(),
            chain.steps_view().len() == old(self).total_view(),
        ensures
            final(self).wf(),
            final(self).total_view() == old(self).total_view(),
            final(self).results_view() == old(self).results_view(),
            old(self).next_view() >= old(self).total_view() ==> (r matches Ok(StepPlan::Finished)) && *final(self) == *old(self),
            old(self).next_view() < old(self).total_view() && cancelled ==> {
                &&& r matches Err(f) && chain_error_is(f.error, ChainErrorCode::ExecutionFailed, "Chain execution was cancelled"@)
                    && f.started is None && f.reported is None
                &&& *final(self) == *old(self)
            },
            old(self).next_view() < old(self).total_view() && !cancelled ==> ({
                let i = old(self).next_view();
                let total = old(self).total_view();
                let step = chain.steps_view()[i as int];
                let vals = values_for_step(old(self).values_view(), step);
                &&& final(self).values_view() == vals
                &&& match step.parallel {
                    None => match formatted(step.template, vals) {
                        Some(prompt) => (r matches Ok(StepPlan::Single(q)) && single_request_matches(q, step, i, total, prompt))
                            && final(self).next_view() == i + 1,
                        None => (r matches Err(f) && f.started is None && failure_is(f, step.name@, i,
                            "Step \""@ + step.name@ + "\" (index "@ + decimal(i) + ")"@ + " template resolution failed: "@
                                + format_error_text(step.template, vals),
                            "Template resolution failed: "@ + format_error_text(step.template, vals)))
                            && final(self).next_view() == i,
                    },
                    Some(p) => {
                        let subs = p.sub_steps@;
                        &&& subs_resolve(subs, vals, subs.len() as int) ==> {
                            &&& r matches Ok(StepPlan::Parallel { start, subs: reqs }) && parallel_start_matches(start,
                                step.name@, i, total, subs.len()) && reqs@.len() == subs.len()
                                && forall|k: int| 0 <= k < subs.len() ==> #[trigger] formatted(subs[k].template, vals)
                                    == Some(reqs@[k].request.prompt@) && sub_request_matches(reqs@[k], subs[k],
                                    step.name@, i, total, reqs@[k].request.prompt@)
                            &&& final(self).next_view() == i + 1
                        }
                        &&& !subs_resolve(subs, vals, subs.len() as int) ==> {
                            &&& final(self).next_view() == i
                            &&& exists|k: int| #![trigger subs[k]] 0 <= k < subs.len() && subs_resolve(subs, vals, k)
                                && formatted(subs[k].template, vals) is None
                                && (r matches Err(f) && (f.started matches Some(s) && parallel_start_matches(s,
                                    step.name@, i, total, subs.len())) && failure_is(f, step.name@, i,
                                    "Step \""@ + step.name@ + "."@ + subs[k].name@ + "\" (index "@ + decimal(i)
                                        + ")"@ + " template resolution failed for sub-step: "@
                                        + format_error_text(subs[k].template, vals),
                                    "Template resolution failed for sub-step: "@
                                        + format_error_text(subs[k].template, vals)))
                        }
                    },
                }
            }),
    {
        if self.next >= self.total_steps {
            return Ok(StepPlan::Finished);
        }
        if cancelled {
            return Err(StepFailure {
                error: SimseError::chain(ChainErrorCode::ExecutionFailed, "Chain execution was cancelled"),
                started: None,
                reported: None,
            });
        }
        let steps = chain.step_configs();
        let index = self.next;
        let total = self.total_steps;
        let step = &steps[index];
        match &step.input_mapping {
            Some(m) => apply_input_mapping(&mut self.values, m),
            None => {},
        }
        assert(self.values.view_map() == values_for_step(old(self).values_view(), *step));
        match &step.parallel {
            None => {
                match step.template.format(&self.values) {
                    Ok(prompt) => {
                        let provider = effective_provider(&step.provider);
                        let provider_ref = to_provider_ref(&provider, &step.server_name, &step.mcp_server_name,
                            &step.mcp_tool_name);
                        self.next = index + 1;
                        Ok(StepPlan::Single(StepRequest {
                            step_name: step.name.clone(),
                            step_index: index,
                            total_steps: total,
                            provider,
                            provider_ref,
                            prompt,
                            agent_id: clone_opt(&step.agent_id),
                            server_name: clone_opt(&step.server_name),
                            system_prompt: clone_opt(&step.system_prompt),
                        }))
                    },
                    Err(e) => {
                        let text = e.describe();
                        assert(text@ == format_error_text(step.template, self.values.view_map()));
                        Err(StepFailure {
                            error: SimseError::chain(ChainErrorCode::StepFailed,
                                step_failure_text(step.name.as_str(), None, index, " template resolution failed: ",
                                    text.as_str()).as_str()),
                            started: None,
                            reported: Some(StepErrorInfo {
                                step_name: step.name.clone(),
                                step_index: index,
                                error: SimseError::chain(ChainErrorCode::StepFailed,
                                    prefixed("Template resolution failed: ", text.as_str()).as_str()),
                            }),
                        })
                    },
                }
            },
            Some(p) => {
                let n = p.sub_steps.len();
                let ghost subs = p.sub_steps@;
                let ghost vals = self.values.view_map();
                let mut reqs: Vec<SubStepRequest> = Vec::new();
                let mut k: usize = 0;
                while k < n
                    invariant
                        n == subs.len(),
                        subs == p.sub_steps@,
                        vals == self.values.view_map(),
                        vals == values_for_step(old(self).values_view(), *step),
                        self.values.wf(),
                        k <= n,
                        index < total,
                        !cancelled,
                        old(self).wf(),
                        old(self).between_steps(),
                        self.next == index,
                        self.total_steps == total,
                        self.results@ == old(self).results@,
                        self.next as nat == old(self).next_view(),
                        old(self).total_view() == total,
                        chain.steps_view()[index as int] == *step,
                        step.parallel == Some(*p),
                        reqs@.len() == k,
                        subs_resolve(subs, vals, k as int),
                        forall|j: int| 0 <= j < k ==> #[trigger] formatted(subs[j].template, vals)
                            == Some(reqs@[j].request.prompt@) && sub_request_matches(reqs@[j], subs[j], step.name@,
                            index as nat, total as nat, reqs@[j].request.prompt@),
                    decreases n - k,
                {
                    let sub = &p.sub_steps[k];
                    match sub.template.format(&self.values) {
                        Ok(prompt) => {
                            let provider = effective_provider(&sub.provider);
                            let provider_ref = to_provider_ref(&provider, &sub.server_name, &sub.mcp_server_name,
                                &sub.mcp_tool_name);
                            let mut display = String::new();
                            display.append(step.name.as_str());
                            display.append(".");
                            display.append(sub.name.as_str());
                            reqs.push(SubStepRequest {
                                sub_step_name: sub.name.clone(),
                                request: StepRequest {
                                    step_name: display,
                                    step_index: index,
                                    total_steps: total,
                                    provider,
                                    provider_ref,
                                    prompt,
                                    agent_id: clone_opt(&sub.agent_id),
                                    server_name: clone_opt(&sub.server_name),
                                    system_prompt: clone_opt(&sub.system_prompt),
                                },
                            });
                            k = k + 1;
                        },
                        Err(e) => {
                            let text = e.describe();
                            let started = parallel_start(step.name.as_str(), index, total, n);
                            assert(formatted(subs[k as int].template, vals) is None);
                            assert(text@ == format_error_text(subs[k as int].template, vals));
                            let r = Err(StepFailure {
                                error: SimseError::chain(ChainErrorCode::StepFailed,
                                    step_failure_text(step.name.as_str(), Some(sub.name.as_str()), index,
                                        " template resolution failed for sub-step: ", text.as_str()).as_str()),
                                started: Some(started),
                                reported: Some(StepErrorInfo {
                                    step_name: step.name.clone(),
                                    step_index: index,
                                    error: SimseError::chain(ChainErrorCode::StepFailed,
                                        prefixed("Template resolution failed for sub-step: ", text.as_str()).as_str()),
                                }),
                            });
                            assert(r matches Err(f) && f.started is Some);
                            assert(r matches Err(f) && failure_is(f, step.name@, index as nat,
                                    "Step \""@ + step.name@ + "."@ + subs[k as int].name@ + "\" (index "@ + decimal(index as nat)
                                        + ")"@ + " template resolution failed for sub-step: "@
                                        + format_error_text(subs[k as int].template, vals),
                                    "Template resolution failed for sub-step: "@
                                        + format_error_text(subs[k as int].template, vals)));
                            return r;
                        },
                    }
                }
                self.next = index + 1;
                Ok(StepPlan::Parallel { start: parallel_start(step.name.as_str(), index, total, n), subs: reqs })
            },
        }
    }
}

impl ChainRun {
    /// The step that is being run.
    pub open spec fn current_step<T, F, C>(&self, chain: &Chain<T, F, C>) -> ChainStepConfig<T, F> {
        chain.steps_view()[self.next_view() - 1]
    }

    /// Records the result of a single step whose request returned `output`
    /// (already transformed) and reported `model`, `usage` and
    /// `tool_metrics`; the output becomes the value of the step's name and
    /// of `previous_output`.
    pub fn complete_single<T, F, C>(&mut self, chain: &Chain<T, F, C>, prompt: String, output: String,
        model: &Option<String>, usage: Option<TokenUsage>, tool_metrics: Option<ToolMetrics>, duration_ms: u64)
        requires
            old(self).wf(),
            old(self).in_step(),
            chain.steps_view().len() == old(self).total_view(),
            old(self).current_step(chain).parallel is None,
        ensures
            final(self).wf(),
            final(self).between_steps(),
            final(self).total_view() == old(self).total_view(),
            final(self).next_view() == old(self).next_view(),
            final(self).results_view().len() == old(self).results_view().len() + 1,
            final(self).results_view().take(old(self).results_view().len() as int) == old(self).results_view(),
            ({
                let step = old(self).current_step(chain);
                let r = final(self).results_view().last();
                &&& r.step_name@ == step.name@
                &&& r.provider == provider_or_acp(step.provider)
                &&& r.model@ == (match model { Some(m) => m@, None => "unknown"@ })
                &&& r.input@ == prompt@
                &&& r.output@ == output@
                &&& r.duration_ms == duration_ms
                &&& r.step_index == old(self).next_view() - 1
                &&& r.usage == usage
                &&& r.tool_metrics == tool_metrics
                &&& r.sub_results is None
                &&& final(self).values_view() == old(self).values_view().insert(step.name@, output@).insert(
                    "previous_output"@, output@)
            }),
    {
        let index = self.next - 1;
        let step = &chain.step_configs()[index];
        record_step_output(&mut self.values, step.name.as_str(), output.as_str());
        let result = StepResult {
            step_name: step.name.clone(),
            provider: effective_provider(&step.provider),
            model: model_or_unknown(model),
            input: prompt,
            output,
            duration_ms,
            step_index: index,
            usage,
            tool_metrics,
            sub_results: None,
        };
        self.results.push(result);
        assert(self.results@.take(old(self).results@.len() as int) =~= old(self).results@);
    }

    /// The failure of a single step whose provider returned `error`.
    pub fn single_failed<T, F, C>(&self, chain: &Chain<T, F, C>, error: &SimseError) -> (r: StepFailure)
        requires
            self.wf(),
            self.in_step(),
            chain.steps_view().len() == self.total_view(),
            self.current_step(chain).parallel is None,
        ensures
            r.started is None,
            r.error matches SimseError::Chain { code: ChainErrorCode::StepFailed, .. },
            r.reported matches Some(info) && info.error matches SimseError::Chain { code: ChainErrorCode::StepFailed, .. },
            ({
                let step = self.current_step(chain);
                let pname = provider_or_acp(step.provider).name_text();
                &&& fails_step(r, step.name@, (self.next_view() - 1) as nat)
                &&& error.display_text() matches Some(t) ==> failure_is(r, step.name@, (self.next_view() - 1) as nat,
                    step_failure_spec(step.name@, None, (self.next_view() - 1) as nat,
                        " provider \""@ + pname + "\" failed: "@, t),
                    "Provider \""@ + pname + "\" failed: "@ + t)
            }),
    {
        let index = self.next - 1;
        let step = &chain.step_configs()[index];
        let provider = effective_provider(&step.provider);
        let text = error.describe();
        let mut what = String::new();
        what.append(" provider \"");
        what.append(provider.as_str());
        what.append("\" failed: ");
        let mut reported = String::new();
        reported.append("Provider \"");
        reported.append(provider.as_str());
        reported.append("\" failed: ");
        reported.append(text.as_str());
        StepFailure {
            error: SimseError::chain(ChainErrorCode::StepFailed,
                step_failure_text(step.name.as_str(), None, index, what.as_str(), text.as_str()).as_str()),
            started: None,
            reported: Some(StepErrorInfo {
                step_name: step.name.clone(),
                step_index: index,
                error: SimseError::chain(ChainErrorCode::StepFailed, reported.as_str()),
            }),
        }
    }

    /// Settles the outcomes of a parallel step's sub-steps, in sub-step
    /// order: a fail-tolerant step keeps the successes and fails only when
    /// there are none; otherwise the first failure fails the step.
    pub fn settle_parallel<T, F, C>(&self, chain: &Chain<T, F, C>, outcomes: Vec<Result<ParallelSubResult, SimseError>>)
        -> (r: Result<Vec<ParallelSubResult>, StepFailure>)
        requires
            self.wf(),
            self.in_step(),
            chain.steps_view().len() == self.total_view(),
            self.current_step(chain).parallel is Some,
        ensures
            ({
                let step = self.current_step(chain);
                let p = step.parallel.unwrap();
                let i = (self.next_view() - 1) as nat;
                &&& r matches Ok(v) ==> v@ == successes(outcomes@)
                &&& r matches Err(f) ==> f.started is None && fails_step(f, step.name@, i)
                &&& p.fail_tolerant ==> (r is Err <==> successes(outcomes@).len() == 0)
                &&& p.fail_tolerant ==> (r matches Err(f) ==> f.started is None && failure_is(f, step.name@, i,
                    step_failure_spec(step.name@, None, i, ": all parallel sub-steps failed"@, ""@),
                    "All parallel sub-steps failed"@))
                &&& !p.fail_tolerant ==> (r is Ok <==> forall|j: int| 0 <= j < outcomes@.len() ==> #[trigger] outcomes@[j] is Ok)
                &&& !p.fail_tolerant ==> (r matches Err(f) ==> f.started is None && exists|k: int| #![trigger outcomes@[k]]
                    0 <= k < outcomes@.len() && (forall|j: int| 0 <= j < k ==> #[trigger] outcomes@[j] is Ok)
                    && (outcomes@[k] matches Err(e) && (e.display_text() matches Some(t) ==> failure_is(f, step.name@, i,
                        step_failure_spec(step.name@, None, i, ": parallel sub-step failed: "@, t),
                        "Parallel sub-step failed: "@ + t))))
            }),
    {
        let index = self.next - 1;
        let step = &chain.step_configs()[index];
        let fail_tolerant = match &step.parallel {
            Some(p) => p.fail_tolerant,
            None => false,
        };
        match settle_sub_results(outcomes, fail_tolerant) {
            Ok(v) => Ok(v),
            Err(SettleFailure::AllFailed) => {
                let text = step_failure_text(step.name.as_str(), None, index, ": all parallel sub-steps failed", "");
                Err(StepFailure {
                    error: SimseError::chain(ChainErrorCode::StepFailed, text.as_str()),
                    started: None,
                    reported: Some(StepErrorInfo {
                        step_name: step.name.clone(),
                        step_index: index,
                        error: SimseError::chain(ChainErrorCode::StepFailed, "All parallel sub-steps failed"),
                    }),
                })
            },
            Err(SettleFailure::SubStepFailed(e)) => {
                let t = e.describe();
                Err(StepFailure {
                    error: SimseError::chain(ChainErrorCode::StepFailed,
                        step_failure_text(step.name.as_str(), None, index, ": parallel sub-step failed: ",
                            t.as_str()).as_str()),
                    started: None,
                    reported: Some(StepErrorInfo {
                        step_name: step.name.clone(),
                        step_index: index,
                        error: SimseError::chain(ChainErrorCode::StepFailed,
                            prefixed("Parallel sub-step failed: ", t.as_str()).as_str()),
                    }),
                })
            },
        }
    }
}

impl ChainRun {
    /// Records the result of a parallel step from its settled sub-results:
    /// the merged output (the custom merge's output for a custom strategy,
    /// otherwise the outputs joined with the separator) becomes the value of
    /// the step's name and of `previous_output`; the keyed strategy also
    /// stores each sub-step's output under `{step}.{sub-step}`.
    pub fn complete_parallel<T, F, C>(&mut self, chain: &Chain<T, F, C>, settled: Vec<ParallelSubResult>,
        custom_merged: Option<String>, duration_ms: u64)
        requires
            old(self).wf(),
            old(self).in_step(),
            chain.steps_view().len() == old(self).total_view(),
            old(self).current_step(chain).parallel matches Some(p)
                && ((p.merge_strategy is Custom) <==> (custom_merged is Some)),
        ensures
            final(self).wf(),
            final(self).between_steps(),
            final(self).total_view() == old(self).total_view(),
            final(self).next_view() == old(self).next_view(),
            final(self).results_view().len() == old(self).results_view().len() + 1,
            final(self).results_view().take(old(self).results_view().len() as int) == old(self).results_view(),
            ({
                let step = old(self).current_step(chain);
                let p = step.parallel.unwrap();
                let merged = match custom_merged {
                    Some(m) => m@,
                    None => join_seqs(outputs_of(settled@), p.concat_separator@),
                };
                let r = final(self).results_view().last();
                &&& r.step_name@ == step.name@
                &&& r.provider == Provider::Acp
                &&& r.model@ == "parallel:"@ + decimal(settled@.len())
                &&& r.input@ == "[parallel: "@ + decimal(p.sub_steps@.len()) + " sub-steps]"@
                &&& r.output@ == merged
                &&& r.duration_ms == duration_ms
                &&& r.step_index == old(self).next_view() - 1
                &&& r.usage is None
                &&& r.tool_metrics is None
                &&& r.sub_results matches Some(v) && v@ == settled@
                &&& final(self).values_view() == (if p.merge_strategy is Keyed {
                    keyed_values(old(self).values_view(), step.name@, settled@, settled@.len())
                } else {
                    old(self).values_view()
                }).insert(step.name@, merged).insert("previous_output"@, merged)
            }),
    {
        let index = self.next - 1;
        let step = &chain.step_configs()[index];
        let (separator, keyed, sub_count) = match &step.parallel {
            Some(p) => (p.concat_separator.as_str(), match &p.merge_strategy {
                MergeStrategy::Keyed => true,
                _ => false,
            }, p.sub_steps.len()),
            None => ("", false, 0),
        };
        let merged = match custom_merged {
            Some(m) => m,
            None => merge_outputs(settled.as_slice(), separator),
        };
        record_parallel_outputs(&mut self.values, step.name.as_str(), settled.as_slice(), keyed, merged.as_str());
        let result = StepResult {
            step_name: step.name.clone(),
            provider: Provider::Acp,
            model: parallel_model(settled.len()),
            input: parallel_prompt(sub_count),
            output: merged,
            duration_ms,
            step_index: index,
            usage: None,
            tool_metrics: None,
            sub_results: Some(settled),
        };
        self.results.push(result);
        assert(self.results@.take(old(self).results@.len() as int) =~= old(self).results@);
    }

    /// The results of a run whose every step ran: one per step, in step
    /// order.
    pub fn finish(self) -> (r: Vec<StepResult>)
        requires
            self.wf(),
            self.between_steps(),
            self.next_view() == self.total_view(),
        ensures
            r@ == self.results_view(),
            r@.len() == self.total_view(),
            forall|i: int| 0 <= i < r@.len() ==> #[trigger] r@[i].step_index == i,
    {
        self.results
    }

    /// Ends the run with `error`: a chain error is returned as it is, any
    /// other error is wrapped as an execution failure; the chain error
    /// reported carries the error's text and the steps completed so far.
    pub fn fail(self, error: SimseError) -> (r: (SimseError, ChainErrorInfo))
        ensures
            r.1.completed_steps@ == self.results_view(),
            r.1.error is Other,
            error.display_text() matches Some(t) ==> r.1.error.message_text() == Some(t),
            error is Chain ==> r.0 == error,
            !(error is Chain) ==> r.0 matches SimseError::Chain { code: ChainErrorCode::ExecutionFailed, .. },
            !(error is Chain) ==> (error.display_text() matches Some(t) ==> chain_error_is(r.0,
                ChainErrorCode::ExecutionFailed, "Chain execution failed: "@ + t)),
    {
        let text = error.describe();
        let info = ChainErrorInfo { error: SimseError::Other(text.clone()), completed_steps: self.results };
        let returned = match error {
            SimseError::Chain { .. } => error,
            _ => SimseError::chain(ChainErrorCode::ExecutionFailed, prefixed("Chain execution failed: ", text.as_str()).as_str()),
        };
        (returned, info)
    }
}

/// The result of a sub-step whose request returned `output` (already
/// transformed): the sub-result kept for the parallel step, and the step
/// result reported for the sub-step under its `{step}.{sub-step}` name.
pub fn sub_step_outcome(sub: &SubStepRequest, output: String, model: &Option<String>, usage: Option<TokenUsage>,
    tool_metrics: Option<ToolMetrics>, duration_ms: u64) -> (r: (ParallelSubResult, StepResult))
    ensures
        r.0.sub_step_name@ == sub.sub_step_name@,
        r.0.provider == sub.request.provider,
        r.0.model@ == (match model { Some(m) => m@, None => "unknown"@ }),
        r.0.input@ == sub.request.prompt@,
        r.0.output@ == output@,
        r.0.duration_ms == duration_ms,
        r.0.usage == usage,
        r.0.tool_metrics == tool_metrics,
        r.1.step_name@ == sub.request.step_name@,
        r.1.provider == sub.request.provider,
        r.1.model@ == r.0.model@,
        r.1.input@ == sub.request.prompt@,
        r.1.output@ == output@,
        r.1.duration_ms == duration_ms,
        r.1.step_index == sub.request.step_index,
        r.1.usage == usage,
        r.1.tool_metrics == tool_metrics,
        r.1.sub_results is None,
{
    let m = model_or_unknown(model);
    let sub_result = ParallelSubResult {
        sub_step_name: sub.sub_step_name.clone(),
        provider: sub.request.provider,
        model: m.clone(),
        input: sub.request.prompt.clone(),
        output: output.clone(),
        duration_ms,
        usage,
        tool_metrics,
    };
    let step_result = StepResult {
        step_name: sub.request.step_name.clone(),
        provider: sub.request.provider,
        model: m,
        input: sub.request.prompt.clone(),
        output,
        duration_ms,
        step_index: sub.request.step_index,
        usage,
        tool_metrics,
        sub_results: None,
    };
    (sub_result, step_result)
}

impl StepRequest {
    /// The start reported for the request.
    pub fn start_info(&self) -> (r: StepStartInfo)
        ensures
            r.step_name@ == self.step_name@,
            r.step_index == self.step_index,
            r.total_steps == self.total_steps,
            r.provider == self.provider,
            r.prompt@ == self.prompt@,
    {
        StepStartInfo {
            step_name: self.step_name.clone(),
            step_index: self.step_index,
            total_steps: self.total_steps,
            provider: self.provider,
            prompt: self.prompt.clone(),
        }
    }
}

/// `prefix` followed by `text`.
fn prefixed(prefix: &str, text: &str) -> (r: String)
    ensures
        r@ == prefix@ + text@,
{
    let mut s = String::new();
    s.append(prefix);
    s.append(text);
    s
}

/// `Step "{name}{.sub}" (index {i}){what}{detail}`: the text of a step
/// failure; the sub-step part only for a sub-step.
pub open spec fn step_failure_spec(name: Seq<char>, sub: Option<Seq<char>>, index: nat, what: Seq<char>,
    detail: Seq<char>) -> Seq<char> {
    match sub {
        Some(x) => "Step \""@ + name + "."@ + x + "\" (index "@ + decimal(index) + ")"@ + what + detail,
        None => "Step \""@ + name + "\" (index "@ + decimal(index) + ")"@ + what + detail,
    }
}

/// `Step "{name}{.sub}" (index {i}){what}{detail}`; the sub-step part only
/// for a sub-step.
fn step_failure_text(name: &str, sub: Option<&str>, index: usize, what: &str, detail: &str) -> (r: String)
    ensures
        sub matches Some(x) ==> r@ == "Step \""@ + name@ + "."@ + x@ + "\" (index "@ + decimal(index as nat) + ")"@
            + what@ + detail@,
        sub is None ==> r@ == "Step \""@ + name@ + "\" (index "@ + decimal(index as nat) + ")"@ + what@ + detail@,
{
    let mut s = String::new();
    s.append("Step \"");
    s.append(name);
    match sub {
        Some(x) => {
            s.append(".");
            s.append(x);
        },
        None => {},
    }
    s.append("\" (index ");
    push_decimal(&mut s, index);
    s.append(")");
    s.append(what);
    s.append(detail);
    s
}

/// The start reported for a parallel step.
fn parallel_start(name: &str, index: usize, total: usize, n: usize) -> (r: StepStartInfo)
    ensures
        parallel_start_matches(r, name@, index as nat, total as nat, n as nat),
{
    StepStartInfo {
        step_name: name.to_owned(),
        step_index: index,
        total_steps: total,
        provider: Provider::Acp,
        prompt: parallel_prompt(n),
    }
}

} // verus!
