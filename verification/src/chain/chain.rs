//! Chain construction and the per-step decisions of chain execution.
//!
//! A chain is a sequence of steps that run against AI providers (ACP, MCP
//! or the library). Each step's output is made available to later steps
//! through the chain values. Running a chain awaits providers and callbacks;
//! that happens in the application, which takes its decisions from here.

use vstd::prelude::*;
use crate::agent::ProviderRef;
use crate::chain::template::PromptTemplate;
use crate::chain::types::{
    ChainStepConfig, MergeStrategy, ParallelConfig, ParallelSubResult, ParallelSubStepConfig, Provider,
};
use crate::config::{ChainDefinition, ChainStepDefinition, MergeStrategy as ConfigMergeStrategy,
    ParallelSubStepDefinition, StepProvider};
use crate::error::{ChainErrorCode, SimseError, TemplateErrorCode};
use crate::text::{join_seqs, join_strings, push_decimal, decimal, views_of};
use crate::values::ValueMap;

verus! {

/// The character view of an optional string.
pub open spec fn opt_view(o: Option<String>) -> Option<Seq<char>> {
    match o {
        Some(s) => Some(s@),
        None => None,
    }
}

pub(crate) fn clone_opt(o: &Option<String>) -> (r: Option<String>)
    ensures
        opt_view(r) == opt_view(*o),
{
    match o {
        Some(s) => Some(s.clone()),
        None => None,
    }
}

fn clone_opt_map(o: &Option<ValueMap>) -> (r: Option<ValueMap>)
    ensures
        opt_map_same(r, *o),
{
    match o {
        Some(m) => Some(m.copy()),
        None => None,
    }
}

/// Two optional maps hold the same entries.
pub open spec fn opt_map_same(a: Option<ValueMap>, b: Option<ValueMap>) -> bool {
    match (a, b) {
        (Some(x), Some(y)) => x.keys_view() == y.keys_view() && x.view_map() == y.view_map() && x.wf() == y.wf(),
        (None, None) => true,
        _ => false,
    }
}

/// An MCP step without both its server name and its tool name.
pub open spec fn mcp_incomplete(provider: Option<Provider>, server: Option<String>, tool: Option<String>) -> bool {
    provider == Some(Provider::Mcp) && (server is None || tool is None)
}

/// The first sub-step at or after `from` that is an incomplete MCP sub-step.
pub open spec fn first_bad_sub<T>(subs: Seq<ParallelSubStepConfig<T>>, from: int) -> Option<int>
    decreases subs.len() - from,
{
    if from < 0 || from >= subs.len() {
        None
    } else if mcp_incomplete(subs[from].provider, subs[from].mcp_server_name, subs[from].mcp_tool_name) {
        Some(from)
    } else {
        first_bad_sub(subs, from + 1)
    }
}

/// The message of the first problem that makes a step invalid, if any.
pub open spec fn step_problem<T, F>(step: ChainStepConfig<T, F>) -> Option<Seq<char>> {
    if mcp_incomplete(step.provider, step.mcp_server_name, step.mcp_tool_name) {
        Some("MCP step \""@ + step.name@ + "\" requires both mcp_server_name and mcp_tool_name"@)
    } else {
        match step.parallel {
            Some(p) => if p.sub_steps@.len() < 2 {
                Some("Parallel step \""@ + step.name@ + "\" must have at least 2 sub-steps"@)
            } else {
                match first_bad_sub(p.sub_steps@, 0) {
                    Some(k) => Some("MCP sub-step \""@ + step.name@ + "."@ + p.sub_steps@[k].name@
                        + "\" requires both mcp_server_name and mcp_tool_name"@),
                    None => None,
                }
            },
            None => None,
        }
    }
}

/// `e` is a chain error with the given code and message.
pub open spec fn chain_error_is(e: SimseError, code: ChainErrorCode, message: Seq<char>) -> bool {
    e matches SimseError::Chain { code: c, .. } && c == code && e.message_text() == Some(message)
}

/// `r` is the provider reference for a provider and a step's server and
/// tool names.
pub open spec fn provider_ref_for(r: ProviderRef, provider: Provider, server_name: Option<String>,
    mcp_server_name: Option<String>, mcp_tool_name: Option<String>) -> bool {
    match provider {
        Provider::Acp => r matches ProviderRef::Acp { server_name: s }
            && s@ == (match server_name { Some(n) => n@, None => "default"@ }),
        Provider::Mcp => r matches ProviderRef::Mcp { server_name: s, tool_name: t }
            && s@ == (match mcp_server_name { Some(n) => n@, None => Seq::<char>::empty() })
            && t@ == (match mcp_tool_name { Some(n) => n@, None => Seq::<char>::empty() }),
        Provider::Memory => r is Library,
    }
}

/// Convert a chain-level provider and step into the provider reference the
/// executor dispatches on: ACP goes to the step's server (default
/// `default`), MCP to the step's MCP server and tool (empty when unset),
/// memory to the library.
pub fn to_provider_ref(provider: &Provider, server_name: &Option<String>, mcp_server_name: &Option<String>,
    mcp_tool_name: &Option<String>) -> (r: ProviderRef)
    ensures
        provider_ref_for(r, *provider, *server_name, *mcp_server_name, *mcp_tool_name),
{
    match provider {
        Provider::Acp => ProviderRef::Acp {
            server_name: match server_name {
                Some(n) => n.clone(),
                None => "default".to_owned(),
            },
        },
        Provider::Mcp => ProviderRef::Mcp {
            server_name: match mcp_server_name {
                Some(n) => n.clone(),
                None => String::new(),
            },
            tool_name: match mcp_tool_name {
                Some(n) => n.clone(),
                None => String::new(),
            },
        },
        Provider::Memory => ProviderRef::Library,
    }
}

/// A chain of steps that execute sequentially against AI providers. `T` is
/// the type of step output transforms, `F` of custom merge functions and
/// `C` of the chain callbacks.
#[derive(Debug)]
pub struct Chain<T, F, C> {
    steps: Vec<ChainStepConfig<T, F>>,
    callbacks: Option<C>,
    chain_name: Option<String>,
}

impl<T, F, C> Chain<T, F, C> {
    pub closed spec fn steps_view(&self) -> Seq<ChainStepConfig<T, F>> {
        self.steps@
    }

    pub closed spec fn callbacks_view(&self) -> Option<C> {
        self.callbacks
    }

    pub closed spec fn name_view(&self) -> Option<Seq<char>> {
        opt_view(self.chain_name)
    }

    /// Every step of a chain passed validation.
    pub open spec fn wf(&self) -> bool {
        forall|i: int| 0 <= i < self.steps_view().len() ==> #[trigger] step_problem(self.steps_view()[i]) is None
    }

    /// A new empty chain.
    pub fn new() -> (r: Self)
        ensures
            r.wf(),
            r.steps_view().len() == 0,
            r.callbacks_view() is None,
            r.name_view() is None,
    {
        Chain { steps: Vec::new(), callbacks: None, chain_name: None }
    }

    /// Set the chain name (used in error messages and logging).
    pub fn set_name(&mut self, name: &str)
        ensures
            final(self).name_view() == Some(name@),
            final(self).steps_view() == old(self).steps_view(),
            final(self).callbacks_view() == old(self).callbacks_view(),
    {
        self.chain_name = Some(name.to_owned());
    }

    /// Append a step after validating it: an MCP step needs both its server
    /// and tool names, a parallel step at least 2 sub-steps, and each MCP
    /// sub-step both names. An invalid step leaves the chain unchanged.
    pub fn add_step(&mut self, step: ChainStepConfig<T, F>) -> (r: Result<(), SimseError>)
        ensures
            r is Ok <==> step_problem(step) is None,
            r matches Err(e) ==> chain_error_is(e, ChainErrorCode::InvalidStep, step_problem(step)->0)
                && final(self).steps_view() == old(self).steps_view(),
            r is Ok ==> final(self).steps_view() == old(self).steps_view().push(step),
            final(self).name_view() == old(self).name_view(),
            final(self).callbacks_view() == old(self).callbacks_view(),
            old(self).wf() ==> final(self).wf(),
    {
        if match step.provider { Some(Provider::Mcp) => true, _ => false }
            && (step.mcp_server_name.is_none() || step.mcp_tool_name.is_none()) {
            let mut m = String::new();
            m.append("MCP step \"");
            m.append(step.name.as_str());
            m.append("\" requires both mcp_server_name and mcp_tool_name");
            return Err(SimseError::chain(ChainErrorCode::InvalidStep, m.as_str()));
        }
        match &step.parallel {
            Some(parallel) => {
                if parallel.sub_steps.len() < 2 {
                    let mut m = String::new();
                    m.append("Parallel step \"");
                    m.append(step.name.as_str());
                    m.append("\" must have at least 2 sub-steps");
                    return Err(SimseError::chain(ChainErrorCode::InvalidStep, m.as_str()));
                }
                let mut k: usize = 0;
                while k < parallel.sub_steps.len()
                    invariant
                        k <= parallel.sub_steps@.len(),
                        parallel.sub_steps@.len() >= 2,
                        !mcp_incomplete(step.provider, step.mcp_server_name, step.mcp_tool_name),
                        step.parallel == Some(*parallel),
                        first_bad_sub(parallel.sub_steps@, 0) == first_bad_sub(parallel.sub_steps@, k as int),
                    decreases parallel.sub_steps@.len() - k,
                {
                    let sub = &parallel.sub_steps[k];
                    if match sub.provider { Some(Provider::Mcp) => true, _ => false }
                        && (sub.mcp_server_name.is_none() || sub.mcp_tool_name.is_none()) {
                        let mut m = String::new();
                        m.append("MCP sub-step \"");
                        m.append(step.name.as_str());
                        m.append(".");
                        m.append(sub.name.as_str());
                        m.append("\" requires both mcp_server_name and mcp_tool_name");
                        assert(first_bad_sub(parallel.sub_steps@, k as int) == Some(k as int));
                        return Err(SimseError::chain(ChainErrorCode::InvalidStep, m.as_str()));
                    }
                    k = k + 1;
                }
            },
            None => {},
        }
        self.steps.push(step);
        Ok(())
    }

    /// Set chain-level callbacks.
    pub fn set_callbacks(&mut self, callbacks: C)
        ensures
            final(self).callbacks_view() == Some(callbacks),
            final(self).steps_view() == old(self).steps_view(),
            final(self).name_view() == old(self).name_view(),
    {
        self.callbacks = Some(callbacks);
    }

    /// Remove all steps (name and callbacks stay).
    pub fn clear(&mut self)
        ensures
            final(self).steps_view().len() == 0,
            final(self).name_view() == old(self).name_view(),
            final(self).callbacks_view() == old(self).callbacks_view(),
            final(self).wf(),
    {
        self.steps.clear();
    }

    /// The number of steps.
    pub fn len(&self) -> (r: usize)
        ensures
            r == self.steps_view().len(),
    {
        self.steps.len()
    }

    /// Whether the chain has no steps.
    pub fn is_empty(&self) -> (r: bool)
        ensures
            r == (self.steps_view().len() == 0),
    {
        self.steps.len() == 0
    }

    /// The step configurations, in order.
    pub fn step_configs(&self) -> (r: &[ChainStepConfig<T, F>])
        ensures
            r@ == self.steps_view(),
    {
        self.steps.as_slice()
    }

    /// The chain callbacks, if set.
    pub fn callbacks(&self) -> (r: &Option<C>)
        ensures
            *r == self.callbacks_view(),
    {
        &self.callbacks
    }

    /// The chain name, if set.
    pub fn name(&self) -> (r: Option<&str>)
        ensures
            match r {
                Some(s) => self.name_view() == Some(s@),
                None => self.name_view() is None,
            },
    {
        match &self.chain_name {
            Some(n) => Some(n.as_str()),
            None => None,
        }
    }
}

impl<T, F, C> Default for Chain<T, F, C> {
    fn default() -> (r: Self)
        ensures
            r.wf(),
            r.steps_view().len() == 0,
            r.callbacks_view() is None,
            r.name_view() is None,
    {
        Self::new()
    }
}

/// Law: a step that `add_step` accepts is kept, last, and the chain stays
/// valid; a refused step changes nothing.
pub proof fn law_add_step_keeps_validity<T, F, C>(before: Chain<T, F, C>, after: Chain<T, F, C>,
    step: ChainStepConfig<T, F>)
    requires
        before.wf(),
        step_problem(step) is None,
        after.steps_view() == before.steps_view().push(step),
    ensures
        after.wf(),
        after.steps_view().last() == step,
{
    assert forall|i: int| 0 <= i < after.steps_view().len() implies #[trigger] step_problem(after.steps_view()[i]) is None by {
        if i < before.steps_view().len() {
            assert(after.steps_view()[i] == before.steps_view()[i]);
        }
    }
}

/// The steps of a run of `add_step` calls that are accepted, in call order.
pub open spec fn accepted_steps<T, F>(steps: Seq<ChainStepConfig<T, F>>) -> Seq<ChainStepConfig<T, F>>
    decreases steps.len(),
{
    if steps.len() == 0 {
        Seq::empty()
    } else {
        let prev = accepted_steps(steps.drop_last());
        if step_problem(steps.last()) is None {
            prev.push(steps.last())
        } else {
            prev
        }
    }
}

/// Law: an input mapping entry `(template_var, source_key)` copies the value
/// of `source_key` to `template_var`: applied to values that hold
/// `source_key`, the result maps `template_var` to that value and leaves
/// every other key as it was; applied to values without `source_key`, it
/// changes nothing.
pub proof fn law_mapping_entry_copies_source_to_variable(values: Map<Seq<char>, Seq<char>>, template_var: Seq<char>,
    source_key: Seq<char>, other: Seq<char>)
    ensures
        ({
            let r = mapped_values(values, seq![(template_var, source_key)], 1);
            &&& values.contains_key(source_key) ==> r.contains_key(template_var) && r[template_var] == values[source_key]
            &&& other != template_var ==> (r.contains_key(other) == values.contains_key(other) && (values.contains_key(other)
                ==> r[other] == values[other]))
            &&& !values.contains_key(source_key) ==> r == values
        }),
{
    let pairs = seq![(template_var, source_key)];
    assert(mapped_values(values, pairs, 0) == values);
    assert(pairs[0].0 == template_var && pairs[0].1 == source_key);
}

/// Law: later mapping entries see the values earlier ones set: applying the
/// first `n + 1` entries is applying the first `n`, then copying entry `n`'s
/// source value (if present by then) to its template variable.
pub proof fn law_mapping_entries_apply_in_order(values: Map<Seq<char>, Seq<char>>, pairs: Seq<(Seq<char>, Seq<char>)>,
    n: nat)
    requires
        n < pairs.len(),
    ensures
        ({
            let before = mapped_values(values, pairs, n);
            let after = mapped_values(values, pairs, n + 1);
            let (t, s) = pairs[n as int];
            &&& before.contains_key(s) ==> after.contains_key(t) && after[t] == before[s]
            &&& forall|k: Seq<char>| k != t ==> (#[trigger] after.contains_key(k) == before.contains_key(k)
                && (before.contains_key(k) ==> after[k] == before[k]))
        }),
{
}

/// Law: a chain built from an empty chain by a run of `add_step` calls (no
/// `clear` between them) holds exactly the accepted steps, in the order they
/// were added, duplicate names included; so its length is the number of
/// calls that returned `Ok`. `chains[i]` is the chain before the call with
/// `steps[i]`, `chains[i + 1]` the chain after it.
pub proof fn law_steps_in_insertion_order<T, F, C>(chains: Seq<Chain<T, F, C>>, steps: Seq<ChainStepConfig<T, F>>)
    requires
        chains.len() == steps.len() + 1,
        chains[0].steps_view().len() == 0,
        forall|i: int, j: int| 0 <= i < steps.len() && j == i + 1 ==> #[trigger] chains[j].steps_view() == (if step_problem(
            #[trigger] steps[i],
        ) is None {
            chains[i].steps_view().push(steps[i])
        } else {
            chains[i].steps_view()
        }),
    ensures
        chains.last().steps_view() == accepted_steps(steps),
    decreases steps.len(),
{
    if steps.len() == 0 {
        assert(chains[0].steps_view() =~= Seq::<ChainStepConfig<T, F>>::empty());
    } else {
        let n = steps.len() - 1;
        let cs = chains.drop_last();
        let ss = steps.drop_last();
        assert forall|i: int, j: int| 0 <= i < ss.len() && j == i + 1 implies #[trigger] cs[j].steps_view() == (if step_problem(
            #[trigger] ss[i],
        ) is None {
            cs[i].steps_view().push(ss[i])
        } else {
            cs[i].steps_view()
        }) by {
            assert(cs[j] == chains[j] && cs[i] == chains[i] && ss[i] == steps[i]);
        }
        law_steps_in_insertion_order(cs, ss);
        assert(cs.last() == chains[n]);
        assert(chains.last() == chains[n + 1]);
        assert(steps.last() == steps[n]);
    }
}

// ---------------------------------------------------------------------------
// ChainBuilder
// ---------------------------------------------------------------------------

/// Fluent builder for constructing a [`Chain`].
pub struct ChainBuilder<T, F, C> {
    chain: Chain<T, F, C>,
}

impl<T, F, C> ChainBuilder<T, F, C> {
    pub closed spec fn chain_view(&self) -> Chain<T, F, C> {
        self.chain
    }

    /// A builder holding an empty chain.
    pub fn new() -> (r: Self)
        ensures
            r.chain_view().steps_view().len() == 0,
            r.chain_view().name_view() is None,
            r.chain_view().callbacks_view() is None,
            r.chain_view().wf(),
    {
        ChainBuilder { chain: Chain::new() }
    }

    /// Set the chain name.
    pub fn name(self, name: &str) -> (r: Self)
        ensures
            r.chain_view().name_view() == Some(name@),
            r.chain_view().steps_view() == self.chain_view().steps_view(),
            r.chain_view().callbacks_view() == self.chain_view().callbacks_view(),
    {
        let mut b = self;
        b.chain.set_name(name);
        b
    }

    /// Add a step; an invalid step is an error (see [`Chain::add_step`]).
    pub fn step(self, step: ChainStepConfig<T, F>) -> (r: Result<Self, SimseError>)
        ensures
            r is Ok <==> step_problem(step) is None,
            r matches Err(e) ==> chain_error_is(e, ChainErrorCode::InvalidStep, step_problem(step)->0),
            r matches Ok(b) ==> b.chain_view().steps_view() == self.chain_view().steps_view().push(step)
                && b.chain_view().name_view() == self.chain_view().name_view()
                && b.chain_view().callbacks_view() == self.chain_view().callbacks_view()
                && (self.chain_view().wf() ==> b.chain_view().wf()),
    {
        let mut b = self;
        match b.chain.add_step(step) {
            Ok(()) => Ok(b),
            Err(e) => Err(e),
        }
    }

    /// Set chain-level callbacks.
    pub fn callbacks(self, callbacks: C) -> (r: Self)
        ensures
            r.chain_view().callbacks_view() == Some(callbacks),
            r.chain_view().steps_view() == self.chain_view().steps_view(),
            r.chain_view().name_view() == self.chain_view().name_view(),
    {
        let mut b = self;
        b.chain.set_callbacks(callbacks);
        b
    }

    /// The chain built so far.
    pub fn build(self) -> (r: Chain<T, F, C>)
        ensures
            r == self.chain_view(),
    {
        self.chain
    }
}

impl<T, F, C> Default for ChainBuilder<T, F, C> {
    fn default() -> (r: Self)
        ensures
            r.chain_view().steps_view().len() == 0,
            r.chain_view().name_view() is None,
            r.chain_view().callbacks_view() is None,
    {
        Self::new()
    }
}


// ---------------------------------------------------------------------------
// create_chain_from_definition
// ---------------------------------------------------------------------------

/// The chain provider of a configured step provider.
pub open spec fn map_provider(p: Option<StepProvider>) -> Option<Provider> {
    match p {
        Some(StepProvider::Acp) => Some(Provider::Acp),
        Some(StepProvider::Mcp) => Some(Provider::Mcp),
        Some(StepProvider::Memory) => Some(Provider::Memory),
        None => None,
    }
}

fn map_provider_exec(p: &Option<StepProvider>) -> (r: Option<Provider>)
    ensures
        r == map_provider(*p),
{
    match p {
        Some(StepProvider::Acp) => Some(Provider::Acp),
        Some(StepProvider::Mcp) => Some(Provider::Mcp),
        Some(StepProvider::Memory) => Some(Provider::Memory),
        None => None,
    }
}

/// The first of two optional strings that is set.
pub open spec fn inherit(a: Option<String>, b: Option<String>) -> Option<Seq<char>> {
    if a is Some { opt_view(a) } else { opt_view(b) }
}

fn inherit_exec(a: &Option<String>, b: &Option<String>) -> (r: Option<String>)
    ensures
        opt_view(r) == inherit(*a, *b),
{
    match a {
        Some(x) => Some(x.clone()),
        None => clone_opt(b),
    }
}

/// The first of three optional strings that is set.
pub open spec fn inherit3(a: Option<String>, b: Option<String>, c: Option<String>) -> Option<Seq<char>> {
    if a is Some { opt_view(a) } else if b is Some { opt_view(b) } else { opt_view(c) }
}

/// An MCP sub-step definition without both its server and tool names.
pub open spec fn def_sub_incomplete(d: ParallelSubStepDefinition) -> bool {
    d.provider == Some(StepProvider::Mcp) && (d.mcp_server_name is None || d.mcp_tool_name is None)
}

/// The first incomplete MCP sub-step definition at or after `from`.
pub open spec fn first_bad_def_sub(subs: Seq<ParallelSubStepDefinition>, from: int) -> Option<int>
    decreases subs.len() - from,
{
    if from < 0 || from >= subs.len() {
        None
    } else if def_sub_incomplete(subs[from]) {
        Some(from)
    } else {
        first_bad_def_sub(subs, from + 1)
    }
}

/// The first problem of a step definition: `(true, message)` for a
/// template error, `(false, message)` for an invalid step.
pub open spec fn def_step_problem(d: ChainStepDefinition) -> Option<(bool, Seq<char>)> {
    if d.template@.len() == 0 {
        Some((true, "Template string cannot be empty"@))
    } else if d.parallel matches Some(p) && exists|k: int| 0 <= k < p.sub_steps@.len() && #[trigger] p.sub_steps@[k].template@.len() == 0 {
        Some((true, "Template string cannot be empty"@))
    } else if d.provider == Some(StepProvider::Mcp) && (d.mcp_server_name is None || d.mcp_tool_name is None) {
        Some((false, "MCP step \""@ + d.name@ + "\" requires both mcp_server_name and mcp_tool_name"@))
    } else {
        match d.parallel {
            Some(p) => if p.sub_steps@.len() < 2 {
                Some((false, "Parallel step \""@ + d.name@ + "\" must have at least 2 sub-steps"@))
            } else {
                match first_bad_def_sub(p.sub_steps@, 0) {
                    Some(k) => Some((false, "MCP sub-step \""@ + d.name@ + "."@ + p.sub_steps@[k].name@
                        + "\" requires both mcp_server_name and mcp_tool_name"@)),
                    None => None,
                }
            },
            None => None,
        }
    }
}

/// `e` is the error reported for the problem `p`.
pub open spec fn def_error_is(e: SimseError, p: (bool, Seq<char>)) -> bool {
    if p.0 {
        e matches SimseError::Template { code: TemplateErrorCode::Empty, .. } && e.message_text() == Some(p.1)
    } else {
        chain_error_is(e, ChainErrorCode::InvalidStep, p.1)
    }
}

/// A sub-step configuration built from its definition.
pub open spec fn sub_matches_def<T>(c: ParallelSubStepConfig<T>, d: ParallelSubStepDefinition,
    step: ChainStepDefinition, def: ChainDefinition) -> bool {
    &&& c.name@ == d.name@
    &&& c.template.raw_view() == d.template@
    &&& c.template.wf()
    &&& c.provider == map_provider(d.provider)
    &&& opt_view(c.agent_id) == inherit3(d.agent_id, step.agent_id, def.agent_id)
    &&& opt_view(c.server_name) == inherit3(d.server_name, step.server_name, def.server_name)
    &&& opt_view(c.system_prompt) == opt_view(d.system_prompt)
    &&& c.output_transform is None
    &&& opt_view(c.mcp_server_name) == opt_view(d.mcp_server_name)
    &&& opt_view(c.mcp_tool_name) == opt_view(d.mcp_tool_name)
    &&& opt_map_same(c.mcp_arguments, d.mcp_arguments)
}

/// A step configuration built from its definition: fields copied, agent and
/// server inherited from the chain, defaults for unset options.
pub open spec fn step_matches_def<T, F>(c: ChainStepConfig<T, F>, d: ChainStepDefinition, def: ChainDefinition) -> bool {
    &&& c.name@ == d.name@
    &&& c.template.raw_view() == d.template@
    &&& c.template.wf()
    &&& c.provider == map_provider(d.provider)
    &&& opt_view(c.agent_id) == inherit(d.agent_id, def.agent_id)
    &&& opt_view(c.server_name) == inherit(d.server_name, def.server_name)
    &&& opt_view(c.system_prompt) == opt_view(d.system_prompt)
    &&& c.output_transform is None
    &&& opt_map_same(c.input_mapping, d.input_mapping)
    &&& opt_view(c.mcp_server_name) == opt_view(d.mcp_server_name)
    &&& opt_view(c.mcp_tool_name) == opt_view(d.mcp_tool_name)
    &&& opt_map_same(c.mcp_arguments, d.mcp_arguments)
    &&& c.store_to_memory == (d.store_to_memory == Some(true))
    &&& opt_map_same(c.memory_metadata, d.memory_metadata)
    &&& match (c.parallel, d.parallel) {
        (None, None) => true,
        (Some(p), Some(pd)) => {
            &&& p.sub_steps@.len() == pd.sub_steps@.len()
            &&& forall|k: int| 0 <= k < p.sub_steps@.len() ==> #[trigger] sub_matches_def(p.sub_steps@[k], pd.sub_steps@[k], d, def)
            &&& (if pd.merge_strategy == Some(ConfigMergeStrategy::Keyed) { p.merge_strategy is Keyed } else { p.merge_strategy is Concat })
            &&& p.fail_tolerant == (pd.fail_tolerant == Some(true))
            &&& p.concat_separator@ == (match pd.concat_separator { Some(sep) => sep@, None => "\n\n"@ })
        },
        _ => false,
    }
}

proof fn lemma_bad_sub_corresponds<T>(cs: Seq<ParallelSubStepConfig<T>>, ds: Seq<ParallelSubStepDefinition>,
    step: ChainStepDefinition, def: ChainDefinition, from: int)
    requires
        cs.len() == ds.len(),
        0 <= from <= cs.len(),
        forall|k: int| 0 <= k < cs.len() ==> #[trigger] sub_matches_def(cs[k], ds[k], step, def),
    ensures
        first_bad_sub(cs, from) == first_bad_def_sub(ds, from),
    decreases cs.len() - from,
{
    if from < cs.len() {
        assert(sub_matches_def(cs[from], ds[from], step, def));
        lemma_bad_sub_corresponds(cs, ds, step, def, from + 1);
    }
}

fn build_sub_step<T>(d: &ParallelSubStepDefinition, step: &ChainStepDefinition, def: &ChainDefinition)
    -> (r: Result<ParallelSubStepConfig<T>, SimseError>)
    ensures
        r is Err <==> d.template@.len() == 0,
        r matches Err(e) ==> def_error_is(e, (true, "Template string cannot be empty"@)),
        r matches Ok(c) ==> sub_matches_def(c, *d, *step, *def),
{
    let template = match PromptTemplate::new(d.template.as_str()) {
        Ok(t) => t,
        Err(e) => return Err(e),
    };
    let agent_id = match &d.agent_id {
        Some(a) => Some(a.clone()),
        None => inherit_exec(&step.agent_id, &def.agent_id),
    };
    let server_name = match &d.server_name {
        Some(a) => Some(a.clone()),
        None => inherit_exec(&step.server_name, &def.server_name),
    };
    Ok(ParallelSubStepConfig {
        name: d.name.clone(),
        template,
        provider: map_provider_exec(&d.provider),
        agent_id,
        server_name,
        system_prompt: clone_opt(&d.system_prompt),
        output_transform: None,
        mcp_server_name: clone_opt(&d.mcp_server_name),
        mcp_tool_name: clone_opt(&d.mcp_tool_name),
        mcp_arguments: clone_opt_map(&d.mcp_arguments),
    })
}

fn build_parallel<T, F>(pd: &crate::config::ParallelConfigDefinition, step: &ChainStepDefinition, def: &ChainDefinition)
    -> (r: Result<ParallelConfig<T, F>, SimseError>)
    ensures
        r is Err <==> exists|k: int| 0 <= k < pd.sub_steps@.len() && #[trigger] pd.sub_steps@[k].template@.len() == 0,
        r matches Err(e) ==> def_error_is(e, (true, "Template string cannot be empty"@)),
        r matches Ok(p) ==> step_matches_parallel(p, *pd, *step, *def),
{
    let mut sub_steps: Vec<ParallelSubStepConfig<T>> = Vec::new();
    let mut k: usize = 0;
    while k < pd.sub_steps.len()
        invariant
            k <= pd.sub_steps@.len(),
            sub_steps@.len() == k,
            forall|j: int| 0 <= j < k ==> #[trigger] sub_matches_def(sub_steps@[j], pd.sub_steps@[j], *step, *def),
            forall|j: int| 0 <= j < k ==> #[trigger] pd.sub_steps@[j].template@.len() > 0,
        decreases pd.sub_steps@.len() - k,
    {
        match build_sub_step(&pd.sub_steps[k], step, def) {
            Ok(c) => sub_steps.push(c),
            Err(e) => {
                assert(pd.sub_steps@[k as int].template@.len() == 0);
                return Err(e);
            },
        }
        k = k + 1;
    }
    let merge_strategy = match pd.merge_strategy {
        Some(ConfigMergeStrategy::Keyed) => MergeStrategy::Keyed,
        _ => MergeStrategy::Concat,
    };
    let fail_tolerant = match pd.fail_tolerant {
        Some(b) => b,
        None => false,
    };
    let concat_separator = match &pd.concat_separator {
        Some(sep) => sep.clone(),
        None => "\n\n".to_owned(),
    };
    Ok(ParallelConfig { sub_steps, merge_strategy, fail_tolerant, concat_separator })
}

/// A parallel configuration built from its definition.
pub open spec fn step_matches_parallel<T, F>(p: ParallelConfig<T, F>, pd: crate::config::ParallelConfigDefinition,
    d: ChainStepDefinition, def: ChainDefinition) -> bool {
    &&& p.sub_steps@.len() == pd.sub_steps@.len()
    &&& forall|k: int| 0 <= k < p.sub_steps@.len() ==> #[trigger] sub_matches_def(p.sub_steps@[k], pd.sub_steps@[k], d, def)
    &&& (if pd.merge_strategy == Some(ConfigMergeStrategy::Keyed) { p.merge_strategy is Keyed } else { p.merge_strategy is Concat })
    &&& p.fail_tolerant == (pd.fail_tolerant == Some(true))
    &&& p.concat_separator@ == (match pd.concat_separator { Some(sep) => sep@, None => "\n\n"@ })
}

fn build_step<T, F>(d: &ChainStepDefinition, def: &ChainDefinition) -> (r: Result<ChainStepConfig<T, F>, SimseError>)
    ensures
        r is Err <==> (d.template@.len() == 0 || (d.parallel matches Some(p)
            && exists|k: int| 0 <= k < p.sub_steps@.len() && #[trigger] p.sub_steps@[k].template@.len() == 0)),
        r matches Err(e) ==> def_error_is(e, (true, "Template string cannot be empty"@)),
        r matches Ok(c) ==> step_matches_def(c, *d, *def),
{
    let template = match PromptTemplate::new(d.template.as_str()) {
        Ok(t) => t,
        Err(e) => return Err(e),
    };
    let parallel = match &d.parallel {
        Some(pd) => match build_parallel(pd, d, def) {
            Ok(p) => Some(p),
            Err(e) => return Err(e),
        },
        None => None,
    };
    let store_to_memory = match d.store_to_memory {
        Some(b) => b,
        None => false,
    };
    Ok(ChainStepConfig {
        name: d.name.clone(),
        template,
        provider: map_provider_exec(&d.provider),
        agent_id: inherit_exec(&d.agent_id, &def.agent_id),
        server_name: inherit_exec(&d.server_name, &def.server_name),
        system_prompt: clone_opt(&d.system_prompt),
        output_transform: None,
        input_mapping: clone_opt_map(&d.input_mapping),
        mcp_server_name: clone_opt(&d.mcp_server_name),
        mcp_tool_name: clone_opt(&d.mcp_tool_name),
        mcp_arguments: clone_opt_map(&d.mcp_arguments),
        store_to_memory,
        memory_metadata: clone_opt_map(&d.memory_metadata),
        parallel,
    })
}

proof fn lemma_problem_corresponds<T, F>(c: ChainStepConfig<T, F>, d: ChainStepDefinition, def: ChainDefinition)
    requires
        step_matches_def(c, d, def),
        d.template@.len() > 0,
        !(d.parallel matches Some(p) && exists|k: int| 0 <= k < p.sub_steps@.len() && #[trigger] p.sub_steps@[k].template@.len() == 0),
    ensures
        match def_step_problem(d) {
            Some(p) => !p.0 && step_problem(c) == Some(p.1),
            None => step_problem(c) is None,
        },
{
    match (c.parallel, d.parallel) {
        (Some(p), Some(pd)) => {
            lemma_bad_sub_corresponds(p.sub_steps@, pd.sub_steps@, d, def, 0);
            match first_bad_def_sub(pd.sub_steps@, 0) {
                Some(k) => {
                    lemma_first_bad_def_sub_range(pd.sub_steps@, 0);
                    assert(sub_matches_def(p.sub_steps@[k], pd.sub_steps@[k], d, def));
                },
                None => {},
            }
        },
        _ => {},
    }
}

proof fn lemma_first_bad_def_sub_range(subs: Seq<ParallelSubStepDefinition>, from: int)
    requires
        0 <= from,
    ensures
        first_bad_def_sub(subs, from) matches Some(k) ==> from <= k < subs.len(),
    decreases subs.len() - from,
{
    if from < subs.len() && !def_sub_incomplete(subs[from]) {
        lemma_first_bad_def_sub_range(subs, from + 1);
    }
}

/// Build a chain from a declarative definition: each step (and sub-step)
/// template becomes a [`PromptTemplate`], agent and server names are
/// inherited from the step and then the chain, and every step is validated
/// as by [`Chain::add_step`]. The first failing step decides the error.
pub fn create_chain_from_definition<T, F, C>(definition: &ChainDefinition, chain_name: Option<&str>)
    -> (r: Result<Chain<T, F, C>, SimseError>)
    ensures
        definition.steps@.len() == 0 ==> (r matches Err(e) && chain_error_is(e, ChainErrorCode::Empty, "Chain definition has no steps"@)),
        definition.steps@.len() > 0 ==> (r is Ok <==> forall|i: int| 0 <= i < definition.steps@.len() ==> #[trigger] def_step_problem(definition.steps@[i]) is None),
        (match r {
            Err(e) => definition.steps@.len() > 0 ==> exists|i: int| 0 <= i < definition.steps@.len()
                && (forall|j: int| 0 <= j < i ==> #[trigger] def_step_problem(definition.steps@[j]) is None)
                && (#[trigger] def_step_problem(definition.steps@[i]) matches Some(p) && def_error_is(e, p)),
            Ok(_) => true,
        }),
        r matches Ok(c) ==> c.wf() && c.callbacks_view() is None
            && c.name_view() == (match chain_name { Some(n) => Some(n@), None => None::<Seq<char>> })
            && c.steps_view().len() == definition.steps@.len()
            && forall|i: int| 0 <= i < definition.steps@.len() ==> #[trigger] step_matches_def(c.steps_view()[i], definition.steps@[i], *definition),
{
    if definition.steps.len() == 0 {
        return Err(SimseError::chain(ChainErrorCode::Empty, "Chain definition has no steps"));
    }
    let mut chain: Chain<T, F, C> = Chain::new();
    match chain_name {
        Some(n) => chain.set_name(n),
        None => {},
    }
    let mut i: usize = 0;
    while i < definition.steps.len()
        invariant
            i <= definition.steps@.len(),
            chain.wf(),
            chain.callbacks_view() is None,
            chain.name_view() == (match chain_name { Some(n) => Some(n@), None => None::<Seq<char>> }),
            chain.steps_view().len() == i,
            forall|j: int| 0 <= j < i ==> #[trigger] def_step_problem(definition.steps@[j]) is None,
            forall|j: int| 0 <= j < i ==> #[trigger] step_matches_def(chain.steps_view()[j], definition.steps@[j], *definition),
        decreases definition.steps@.len() - i,
    {
        let d = &definition.steps[i];
        let cfg: ChainStepConfig<T, F> = match build_step(d, definition) {
            Ok(c) => c,
            Err(e) => {
                assert(def_step_problem(definition.steps@[i as int]) matches Some(p) && def_error_is(e, p));
                return Err(e);
            },
        };
        proof { lemma_problem_corresponds(cfg, *d, *definition); }
        let ghost before = chain.steps_view();
        match chain.add_step(cfg) {
            Ok(()) => {},
            Err(e) => {
                assert(def_step_problem(definition.steps@[i as int]) matches Some(p) && def_error_is(e, p));
                return Err(e);
            },
        }
        proof {
            assert forall|j: int| 0 <= j < i + 1 implies #[trigger] step_matches_def(chain.steps_view()[j], definition.steps@[j], *definition) by {
                if j < i {
                    assert(chain.steps_view()[j] == before[j]);
                }
            }
        }
        i = i + 1;
    }
    Ok(chain)
}


// ---------------------------------------------------------------------------
// Decisions of chain execution
// ---------------------------------------------------------------------------

/// The chain values after applying the first `n` input mappings: each
/// `(template_var, source_key)` entry copies the value of `source_key`
/// (when present) to `template_var`.
pub open spec fn mapped_values(values: Map<Seq<char>, Seq<char>>, pairs: Seq<(Seq<char>, Seq<char>)>, n: nat)
    -> Map<Seq<char>, Seq<char>>
    decreases n,
{
    if n == 0 || n > pairs.len() {
        values
    } else {
        let prev = mapped_values(values, pairs, (n - 1) as nat);
        let source = pairs[n - 1].1;
        if prev.contains_key(source) {
            prev.insert(pairs[n - 1].0, prev[source])
        } else {
            prev
        }
    }
}

/// Apply a step's input mapping to the chain values, entry by entry in the
/// mapping's order.
pub fn apply_input_mapping(values: &mut ValueMap, mapping: &ValueMap)
    requires
        old(values).wf(),
    ensures
        final(values).wf(),
        final(values).view_map() == mapped_values(old(values).view_map(), mapping.pairs_view(),
            mapping.pairs_view().len()),
{
    let mut i: usize = 0;
    while i < mapping.len()
        invariant
            i <= mapping.pairs_view().len(),
            mapping.pairs_view().len() == mapping.keys_view().len(),
            values.wf(),
            values.view_map() == mapped_values(old(values).view_map(), mapping.pairs_view(), i as nat),
        decreases mapping.pairs_view().len() - i,
    {
        let (template_var, source_key) = mapping.pair_at(i);
        let found = match values.get(source_key.as_str()) {
            Some(v) => Some(v.clone()),
            None => None,
        };
        match found {
            Some(v) => values.insert(template_var.as_str(), v.as_str()),
            None => {},
        }
        i = i + 1;
    }
}

/// Make a finished step's output available to later steps: under the step's
/// name and as `previous_output`.
pub fn record_step_output(values: &mut ValueMap, step_name: &str, output: &str)
    requires
        old(values).wf(),
    ensures
        final(values).wf(),
        final(values).view_map() == old(values).view_map().insert(step_name@, output@).insert("previous_output"@, output@),
{
    values.insert(step_name, output);
    values.insert("previous_output", output);
}

/// Why the sub-steps of a parallel step produced no usable result.
#[derive(Debug)]
pub enum SettleFailure {
    /// Fail-tolerant mode and every sub-step failed.
    AllFailed,
    /// Strict mode and this sub-step error was the first one.
    SubStepFailed(SimseError),
}

/// The successful results, in order.
pub open spec fn successes(results: Seq<Result<ParallelSubResult, SimseError>>) -> Seq<ParallelSubResult>
    decreases results.len(),
{
    if results.len() == 0 {
        Seq::empty()
    } else {
        match results.last() {
            Ok(v) => successes(results.drop_last()).push(v),
            Err(_) => successes(results.drop_last()),
        }
    }
}

/// Settle the results of a parallel step's sub-steps: in fail-tolerant mode
/// keep the successes (an error when there are none); otherwise the first
/// failure is the step's error.
pub fn settle_sub_results(results: Vec<Result<ParallelSubResult, SimseError>>, fail_tolerant: bool)
    -> (r: Result<Vec<ParallelSubResult>, SettleFailure>)
    ensures
        fail_tolerant ==> match r {
            Ok(v) => v@ == successes(results@) && v@.len() > 0,
            Err(f) => f is AllFailed && successes(results@).len() == 0,
        },
        !fail_tolerant ==> match r {
            Ok(v) => v@ == successes(results@) && forall|j: int| 0 <= j < results@.len() ==> #[trigger] results@[j] is Ok,
            Err(f) => f matches SettleFailure::SubStepFailed(e) && exists|k: int| 0 <= k < results@.len()
                && (forall|j: int| 0 <= j < k ==> #[trigger] results@[j] is Ok)
                && results@[k] == Err::<ParallelSubResult, SimseError>(e),
        },
{
    let ghost all = results@;
    let mut ok: Vec<ParallelSubResult> = Vec::new();
    for res in it: results
        invariant
            it.seq() == all,
            ok@ == successes(all.take(it.index() as int)),
            !fail_tolerant ==> forall|j: int| 0 <= j < it.index() ==> #[trigger] all[j] is Ok,
    {
        let ghost idx = it.index() as int;
        proof {
            assert(all.take(idx + 1).drop_last() =~= all.take(idx));
            assert(all.take(idx + 1).last() == all[idx]);
        }
        match res {
            Ok(v) => ok.push(v),
            Err(e) => {
                if !fail_tolerant {
                    return Err(SettleFailure::SubStepFailed(e));
                }
            },
        }
    }
    proof {
        assert(all.take(all.len() as int) =~= all);
    }
    if fail_tolerant && ok.len() == 0 {
        return Err(SettleFailure::AllFailed);
    }
    Ok(ok)
}

/// The outputs of the sub-results, in order.
pub open spec fn outputs_of(subs: Seq<ParallelSubResult>) -> Seq<Seq<char>> {
    subs.map_values(|s: ParallelSubResult| s.output@)
}

/// Merge sub-step outputs for the `Concat` and `Keyed` strategies: the
/// outputs joined with the separator.
pub fn merge_outputs(subs: &[ParallelSubResult], separator: &str) -> (r: String)
    ensures
        r@ == join_seqs(outputs_of(subs@), separator@),
{
    let mut outputs: Vec<String> = Vec::new();
    let mut i: usize = 0;
    while i < subs.len()
        invariant
            i <= subs@.len(),
            outputs@.len() == i,
            forall|j: int| 0 <= j < i ==> #[trigger] outputs@[j]@ == subs@[j].output@,
        decreases subs@.len() - i,
    {
        outputs.push(subs[i].output.clone());
        i = i + 1;
    }
    assert(views_of(outputs@) =~= outputs_of(subs@));
    join_strings(outputs.as_slice(), separator)
}

/// The values after storing each sub-result's output under
/// `{step}.{sub-step}` (the `Keyed` strategy), for the first `n` sub-results.
pub open spec fn keyed_values(values: Map<Seq<char>, Seq<char>>, step_name: Seq<char>,
    subs: Seq<ParallelSubResult>, n: nat) -> Map<Seq<char>, Seq<char>>
    decreases n,
{
    if n == 0 || n > subs.len() {
        values
    } else {
        keyed_values(values, step_name, subs, (n - 1) as nat).insert(
            step_name + "."@ + subs[n - 1].sub_step_name@,
            subs[n - 1].output@,
        )
    }
}

/// Record a finished parallel step in the chain values: with the `Keyed`
/// strategy each sub-step output under `{step}.{sub-step}`; then the merged
/// output under the step's name and as `previous_output`.
pub fn record_parallel_outputs(values: &mut ValueMap, step_name: &str, subs: &[ParallelSubResult],
    keyed: bool, merged: &str)
    requires
        old(values).wf(),
    ensures
        final(values).wf(),
        final(values).view_map() == (if keyed {
            keyed_values(old(values).view_map(), step_name@, subs@, subs@.len())
        } else {
            old(values).view_map()
        }).insert(step_name@, merged@).insert("previous_output"@, merged@),
{
    if keyed {
        let mut i: usize = 0;
        while i < subs.len()
            invariant
                i <= subs@.len(),
                values.wf(),
                values.view_map() == keyed_values(old(values).view_map(), step_name@, subs@, i as nat),
            decreases subs@.len() - i,
        {
            let mut key = String::new();
            key.append(step_name);
            key.append(".");
            key.append(subs[i].sub_step_name.as_str());
            values.insert(key.as_str(), subs[i].output.as_str());
            i = i + 1;
        }
    }
    record_step_output(values, step_name, merged);
}

/// The prompt reported for a parallel step: `[parallel: N sub-steps]`.
pub fn parallel_prompt(sub_step_count: usize) -> (r: String)
    ensures
        r@ == "[parallel: "@ + decimal(sub_step_count as nat) + " sub-steps]"@,
{
    let mut s = String::new();
    s.append("[parallel: ");
    push_decimal(&mut s, sub_step_count);
    s.append(" sub-steps]");
    s
}

/// The model reported for a parallel step: `parallel:N` for N settled sub-results.
pub fn parallel_model(settled_count: usize) -> (r: String)
    ensures
        r@ == "parallel:"@ + decimal(settled_count as nat),
{
    let mut s = String::new();
    s.append("parallel:");
    push_decimal(&mut s, settled_count);
    s
}

/// The name a sub-step is reported under: `{step}.{sub-step}`.
pub fn sub_step_display_name(step_name: &str, sub_name: &str) -> (r: String)
    ensures
        r@ == step_name@ + "."@ + sub_name@,
{
    let mut s = String::new();
    s.append(step_name);
    s.append(".");
    s.append(sub_name);
    s
}

/// The model an agent reported, or `unknown`.
pub fn model_or_unknown(model: &Option<String>) -> (r: String)
    ensures
        r@ == (match model { Some(m) => m@, None => "unknown"@ }),
{
    match model {
        Some(m) => m.clone(),
        None => "unknown".to_owned(),
    }
}

/// The provider a step runs against: its own, or ACP.
pub fn effective_provider(provider: &Option<Provider>) -> (r: Provider)
    ensures
        r == (match provider { Some(p) => *p, None => Provider::Acp }),
{
    match provider {
        Some(p) => *p,
        None => Provider::Acp,
    }
}

} // verus!
