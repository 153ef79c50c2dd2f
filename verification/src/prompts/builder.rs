//! System prompt builder with ordered sections.
//!
//! Sections are assembled in a cache-friendly order: identity, mode,
//! tool guidelines, environment, instructions, custom sections, tool
//! definitions, memory. Empty sections are skipped and sections are
//! separated by blank lines.

use vstd::prelude::*;
use crate::prompts::environment::{format_environment, format_environment_spec, EnvironmentInfo};
use crate::text::{join_seqs, join_strings, str_eq, views_of};

verus! {

/// Agent operating mode.
///
/// - `Build`: default mode: gathers context, takes actions, verifies results.
/// - `Plan`: research and planning only, no code modifications.
/// - `Explore`: fast, read-only codebase exploration.
#[derive(Debug, Clone, Copy, PartialEq, Eq, Hash, Structural)]
pub enum PromptMode {
    Build,
    Plan,
    Explore,
}

/// The default identity section.
pub const DEFAULT_IDENTITY: &'static str = "You are a software development assistant.";

/// Default instructions of the build mode.
pub const DEFAULT_BUILD_INSTRUCTIONS: &'static str = "# Operating Mode: Build\n\nFollow a gather-action-verify workflow:\n1. **Gather**: Read relevant files, understand the codebase, and plan your approach before making changes.\n2. **Action**: Make precise, minimal changes. Prefer editing existing files over creating new ones.\n3. **Verify**: After changes, run relevant checks (typecheck, lint, tests) to confirm correctness.\n\nGuidelines:\n- Only modify code you have read and understood.\n- Keep changes focused \u{2014} do not add features, refactoring, or improvements beyond what was requested.\n- Use parallel tool calls when operations are independent.\n- When uncertain, ask for clarification rather than guessing.";

/// Default instructions of the plan mode.
pub const DEFAULT_PLAN_INSTRUCTIONS: &'static str = "# Operating Mode: Plan\n\nYou are in planning mode. Research the codebase, analyze the task, and produce a structured implementation plan.\n\nConstraints:\n- Do NOT modify any files \u{2014} read-only exploration only.\n- Do NOT execute commands that change state (no writes, installs, or deletions).\n- Output a clear, numbered implementation plan with file paths and descriptions of changes.";

/// Default instructions of the explore mode.
pub const DEFAULT_EXPLORE_INSTRUCTIONS: &'static str = "# Operating Mode: Explore\n\nYou are in exploration mode. Quickly find information in the codebase and return concise answers.\n\nConstraints:\n- Do NOT modify any files \u{2014} read-only exploration only.\n- Be concise \u{2014} answer the question directly without unnecessary elaboration.\n- Use search tools (grep, glob) efficiently to locate relevant code.";

/// The default tool usage guidelines section.
pub const DEFAULT_TOOL_GUIDELINES: &'static str = "# Tool Usage Guidelines\n\n- When multiple tool calls are independent, execute them in parallel.\n- Use search tools (grep, glob) before reading files to find the right targets.\n- Always read a file before editing it.\n- Prefer editing existing files over creating new ones.\n- After writing code, verify it compiles/passes checks when possible.";

impl PromptMode {
    pub open spec fn instructions_text(&self) -> Seq<char> {
        match self {
            PromptMode::Build => DEFAULT_BUILD_INSTRUCTIONS@,
            PromptMode::Plan => DEFAULT_PLAN_INSTRUCTIONS@,
            PromptMode::Explore => DEFAULT_EXPLORE_INSTRUCTIONS@,
        }
    }

    pub open spec fn name_text(&self) -> Seq<char> {
        match self {
            PromptMode::Build => "build"@,
            PromptMode::Plan => "plan"@,
            PromptMode::Explore => "explore"@,
        }
    }

    /// Human-readable description of this mode.
    pub fn description(&self) -> (r: &'static str)
        ensures
            r@ == (match self {
                PromptMode::Build => "Default mode \u{2014} gathers context, takes actions, verifies results."@,
                PromptMode::Plan => "Research and planning only \u{2014} no code modifications."@,
                PromptMode::Explore => "Fast, read-only codebase exploration."@,
            }),
    {
        match self {
            PromptMode::Build => "Default mode \u{2014} gathers context, takes actions, verifies results.",
            PromptMode::Plan => "Research and planning only \u{2014} no code modifications.",
            PromptMode::Explore => "Fast, read-only codebase exploration.",
        }
    }

    /// Default mode instructions for the system prompt.
    pub fn default_instructions(&self) -> (r: &'static str)
        ensures
            r@ == self.instructions_text(),
    {
        match self {
            PromptMode::Build => DEFAULT_BUILD_INSTRUCTIONS,
            PromptMode::Plan => DEFAULT_PLAN_INSTRUCTIONS,
            PromptMode::Explore => DEFAULT_EXPLORE_INSTRUCTIONS,
        }
    }

    /// The mode's name: `build`, `plan` or `explore`.
    pub fn as_str(&self) -> (r: &'static str)
        ensures
            r@ == self.name_text(),
    {
        match self {
            PromptMode::Build => "build",
            PromptMode::Plan => "plan",
            PromptMode::Explore => "explore",
        }
    }

    /// Parse a mode name; any other name is an error `unknown prompt mode: {name}`.
    pub fn parse(s: &str) -> (r: Result<PromptMode, String>)
        ensures
            s@ == "build"@ ==> r == Ok::<PromptMode, String>(PromptMode::Build),
            s@ == "plan"@ ==> r == Ok::<PromptMode, String>(PromptMode::Plan),
            s@ == "explore"@ ==> r == Ok::<PromptMode, String>(PromptMode::Explore),
            s@ != "build"@ && s@ != "plan"@ && s@ != "explore"@ ==>
                (r matches Err(m) && m@ == "unknown prompt mode: "@ + s@),
    {
        proof {
            reveal_strlit("build");
            reveal_strlit("plan");
            reveal_strlit("explore");
            assert("plan"@.len() == 4);
            assert("build"@.len() == 5);
            assert("explore"@.len() == 7);
        }
        if str_eq(s, "build") {
            Ok(PromptMode::Build)
        } else if str_eq(s, "plan") {
            Ok(PromptMode::Plan)
        } else if str_eq(s, "explore") {
            Ok(PromptMode::Explore)
        } else {
            let mut m = String::new();
            m.append("unknown prompt mode: ");
            m.append(s);
            Err(m)
        }
    }
}

impl std::str::FromStr for PromptMode {
    type Err = String;

    fn from_str(s: &str) -> Result<Self, Self::Err> {
        PromptMode::parse(s)
    }
}

fn copy_opt(o: &Option<String>) -> (r: Option<String>)
    ensures
        r == *o,
{
    match o {
        Some(s) => Some(s.clone()),
        None => None,
    }
}

/// A copy of the environment context.
pub fn copy_environment(e: &EnvironmentInfo) -> (r: EnvironmentInfo)
    ensures
        r == *e,
{
    EnvironmentInfo {
        platform: e.platform.clone(),
        shell: e.shell.clone(),
        cwd: e.cwd.clone(),
        date: e.date.clone(),
        git_branch: copy_opt(&e.git_branch),
        git_status: copy_opt(&e.git_status),
    }
}

/// A copy of a list of instruction files.
pub fn copy_instructions(v: &Vec<DiscoveredInstruction>) -> (r: Vec<DiscoveredInstruction>)
    ensures
        r@ == v@,
{
    let mut out: Vec<DiscoveredInstruction> = Vec::new();
    let mut i: usize = 0;
    while i < v.len()
        invariant
            i <= v@.len(),
            out@ == v@.take(i as int),
        decreases v@.len() - i,
    {
        out.push(DiscoveredInstruction { path: v[i].path.clone(), content: v[i].content.clone() });
        assert(v@.take(i + 1) =~= v@.take(i as int).push(v@[i as int]));
        i = i + 1;
    }
    assert(v@.take(v@.len() as int) =~= v@);
    out
}

/// A discovered instruction file with its path and content.
#[derive(Debug, Clone)]
pub struct DiscoveredInstruction {
    /// Absolute or relative path to the instruction file.
    pub path: String,
    /// Content of the instruction file.
    pub content: String,
}

/// Context for building a system prompt from a single struct.
#[derive(Debug, Clone, Default)]
pub struct SystemPromptBuildContext {
    /// Current operating mode. Defaults to `Build` if `None`.
    pub mode: Option<PromptMode>,
    /// Environment context (platform, shell, cwd, git).
    pub environment: Option<EnvironmentInfo>,
    /// Discovered instruction files.
    pub instructions: Option<Vec<DiscoveredInstruction>>,
    /// Dynamic memory context injected per turn.
    pub memory_context: Option<String>,
}

/// The character view of an optional string.
pub open spec fn ov(o: Option<String>) -> Option<Seq<char>> {
    match o {
        Some(s) => Some(s@),
        None => None,
    }
}

/// One instruction file rendered as `## path`, a blank line, its content.
pub open spec fn instruction_entry(i: DiscoveredInstruction) -> Seq<char> {
    "## "@ + i.path@ + "\n\n"@ + i.content@
}

/// The instruction files section.
pub open spec fn instructions_section(v: Seq<DiscoveredInstruction>) -> Seq<char> {
    "# Project Instructions\n\n"@ + join_seqs(v.map_values(|i: DiscoveredInstruction| instruction_entry(i)), "\n\n"@)
}

/// The non-empty custom sections, in order.
pub open spec fn non_empty(v: Seq<Seq<char>>) -> Seq<Seq<char>> {
    v.filter(is_non_empty())
}

/// The predicate "has at least one character".
pub open spec fn is_non_empty() -> spec_fn(Seq<char>) -> bool {
    |s: Seq<char>| s.len() > 0
}

/// Builder for assembling a system prompt from ordered sections.
#[derive(Debug, Clone)]
pub struct SystemPromptBuilder {
    identity: Option<String>,
    mode: Option<PromptMode>,
    mode_override: Option<String>,
    tool_guidelines: Option<String>,
    environment: Option<EnvironmentInfo>,
    instructions: Option<Vec<DiscoveredInstruction>>,
    custom_sections: Vec<String>,
    tool_defs: Option<String>,
    memory: Option<String>,
}

impl SystemPromptBuilder {
    pub closed spec fn identity_view(&self) -> Option<Seq<char>> { ov(self.identity) }
    pub closed spec fn mode_view(&self) -> Option<PromptMode> { self.mode }
    pub closed spec fn mode_override_view(&self) -> Option<Seq<char>> { ov(self.mode_override) }
    pub closed spec fn tool_guidelines_view(&self) -> Option<Seq<char>> { ov(self.tool_guidelines) }
    pub closed spec fn environment_view(&self) -> Option<EnvironmentInfo> { self.environment }
    pub closed spec fn instructions_view(&self) -> Option<Seq<DiscoveredInstruction>> {
        match self.instructions {
            Some(v) => Some(v@),
            None => None,
        }
    }
    pub closed spec fn custom_view(&self) -> Seq<Seq<char>> { views_of(self.custom_sections@) }
    pub closed spec fn tool_defs_view(&self) -> Option<Seq<char>> { ov(self.tool_defs) }
    pub closed spec fn memory_view(&self) -> Option<Seq<char>> { ov(self.memory) }

    /// All settings other than those named are as in `other`.
    pub open spec fn same_except(&self, other: &Self, identity: bool, mode: bool, mode_override: bool,
        guidelines: bool, environment: bool, instructions: bool, custom: bool, tool_defs: bool, memory: bool) -> bool {
        &&& (identity || self.identity_view() == other.identity_view())
        &&& (mode || self.mode_view() == other.mode_view())
        &&& (mode_override || self.mode_override_view() == other.mode_override_view())
        &&& (guidelines || self.tool_guidelines_view() == other.tool_guidelines_view())
        &&& (environment || self.environment_view() == other.environment_view())
        &&& (instructions || self.instructions_view() == other.instructions_view())
        &&& (custom || self.custom_view() == other.custom_view())
        &&& (tool_defs || self.tool_defs_view() == other.tool_defs_view())
        &&& (memory || self.memory_view() == other.memory_view())
    }

    /// Nothing is set.
    pub open spec fn is_blank(&self) -> bool {
        &&& self.identity_view() is None
        &&& self.mode_view() is None
        &&& self.mode_override_view() is None
        &&& self.tool_guidelines_view() is None
        &&& self.environment_view() is None
        &&& self.instructions_view() is None
        &&& self.custom_view().len() == 0
        &&& self.tool_defs_view() is None
        &&& self.memory_view() is None
    }

    /// The identity, mode, tool guideline and environment sections.
    pub open spec fn head_sections(&self) -> Seq<Seq<char>> {
        let s1 = seq![match self.identity_view() { Some(i) => i, None => DEFAULT_IDENTITY@ }];
        let s2 = match self.mode_view() {
            Some(m) => s1.push(match self.mode_override_view() { Some(o) => o, None => m.instructions_text() }),
            None => s1,
        };
        let s3 = match self.tool_guidelines_view() {
            Some(g) => s2.push(g),
            None => s2,
        };
        match self.environment_view() {
            Some(e) => s3.push(format_environment_spec(e)),
            None => s3,
        }
    }

    /// The sections up to and including the instruction files.
    pub open spec fn sections_through_instructions(&self) -> Seq<Seq<char>> {
        let s4 = self.head_sections();
        match self.instructions_view() {
            Some(v) => if v.len() > 0 { s4.push(instructions_section(v)) } else { s4 },
            None => s4,
        }
    }

    /// The sections of the prompt, in order, empty optional sections left out.
    pub open spec fn sections(&self) -> Seq<Seq<char>> {
        let s6 = self.sections_through_instructions() + non_empty(self.custom_view());
        let s7 = match self.tool_defs_view() {
            Some(t) => if t.len() > 0 { s6.push(t) } else { s6 },
            None => s6,
        };
        match self.memory_view() {
            Some(m) => if m.len() > 0 { s7.push("# Memory Context\n\n"@ + m) } else { s7 },
            None => s7,
        }
    }

    /// The prompt: the sections separated by blank lines.
    pub open spec fn build_spec(&self) -> Seq<char> {
        join_seqs(self.sections(), "\n\n"@)
    }

    /// Law: a non-empty memory context set on the builder is the last
    /// section of the prompt, as `# Memory Context`, a blank line and the
    /// context, after a blank line; the identity section always comes first.
    pub proof fn law_memory_context_closes_the_prompt(&self)
        ensures
            self.sections().len() >= 1,
            self.sections()[0] == (match self.identity_view() {
                Some(i) => i,
                None => DEFAULT_IDENTITY@,
            }),
            match self.memory_view() {
                Some(m) => m.len() > 0 ==> {
                    &&& self.sections().last() == "# Memory Context\n\n"@ + m
                    &&& self.build_spec() == join_seqs(self.sections().drop_last(), "\n\n"@) + "\n\n# Memory Context\n\n"@
                        + m
                },
                None => true,
            },
    {
        let s = self.sections();
        let s4 = self.head_sections();
        assert(s4.len() >= 1 && s4[0] == s[0]) by {
            let s6 = self.sections_through_instructions() + non_empty(self.custom_view());
            assert(self.sections_through_instructions()[0] == s4[0]);
            assert(s6[0] == s4[0]);
        }
        match self.memory_view() {
            Some(m) => {
                if m.len() > 0 {
                    reveal_strlit("\n\n");
                    reveal_strlit("# Memory Context\n\n");
                    reveal_strlit("\n\n# Memory Context\n\n");
                    assert(s.len() >= 2);
                    assert(self.build_spec() == join_seqs(s.drop_last(), "\n\n"@) + "\n\n"@ + s.last());
                    assert(("\n\n"@ + ("# Memory Context\n\n"@ + m)) =~= "\n\n# Memory Context\n\n"@ + m);
                }
            },
            None => {},
        }
    }

    /// A new empty builder.
    pub fn new() -> (r: Self)
        ensures
            r.is_blank(),
    {
        let r = SystemPromptBuilder {
            identity: None,
            mode: None,
            mode_override: None,
            tool_guidelines: None,
            environment: None,
            instructions: None,
            custom_sections: Vec::new(),
            tool_defs: None,
            memory: None,
        };
        assert(r.custom_view() =~= Seq::<Seq<char>>::empty());
        r
    }

    /// A builder with the mode, environment, instructions and memory of the
    /// context (default identity, no tool guidelines); a context without a
    /// mode builds in `Build` mode.
    pub fn from_context(ctx: &SystemPromptBuildContext) -> (r: Self)
        ensures
            r.identity_view() is None,
            r.mode_override_view() is None,
            r.tool_guidelines_view() is None,
            r.custom_view().len() == 0,
            r.tool_defs_view() is None,
            r.mode_view() == Some(match ctx.mode {
                Some(m) => m,
                None => PromptMode::Build,
            }),
            r.environment_view() == ctx.environment,
            r.instructions_view() == (match ctx.instructions { Some(v) => Some(v@), None => None::<Seq<DiscoveredInstruction>> }),
            r.memory_view() == ov(ctx.memory_context),
    {
        let mut builder = Self::new();
        match ctx.mode {
            Some(mode) => { builder = builder.mode(mode); },
            None => { builder = builder.mode(PromptMode::Build); },
        }
        match &ctx.environment {
            Some(env) => { builder = builder.environment(copy_environment(env)); },
            None => {},
        }
        match &ctx.instructions {
            Some(instructions) => { builder = builder.instructions(copy_instructions(instructions)); },
            None => {},
        }
        match &ctx.memory_context {
            Some(memory) => { builder = builder.memory(memory.as_str()); },
            None => {},
        }
        builder
    }

    /// Set the identity section.
    pub fn identity(self, identity: &str) -> (r: Self)
        ensures
            r.identity_view() == Some(identity@),
            r.same_except(&self, true, false, false, false, false, false, false, false, false),
    {
        let mut b = self;
        b.identity = Some(identity.to_owned());
        b
    }

    /// Set the operating mode (its default instructions are used).
    pub fn mode(self, mode: PromptMode) -> (r: Self)
        ensures
            r.mode_view() == Some(mode),
            r.same_except(&self, false, true, false, false, false, false, false, false, false),
    {
        let mut b = self;
        b.mode = Some(mode);
        b
    }

    /// Override the mode instructions with custom text.
    pub fn mode_instructions(self, instructions: &str) -> (r: Self)
        ensures
            r.mode_override_view() == Some(instructions@),
            r.same_except(&self, false, false, true, false, false, false, false, false, false),
    {
        let mut b = self;
        b.mode_override = Some(instructions.to_owned());
        b
    }

    /// Set custom tool usage guidelines.
    pub fn tool_guidelines(self, guidelines: &str) -> (r: Self)
        ensures
            r.tool_guidelines_view() == Some(guidelines@),
            r.same_except(&self, false, false, false, true, false, false, false, false, false),
    {
        let mut b = self;
        b.tool_guidelines = Some(guidelines.to_owned());
        b
    }

    /// Use the default tool guidelines section.
    pub fn use_default_tool_guidelines(self) -> (r: Self)
        ensures
            r.tool_guidelines_view() == Some(DEFAULT_TOOL_GUIDELINES@),
            r.same_except(&self, false, false, false, true, false, false, false, false, false),
    {
        let mut b = self;
        b.tool_guidelines = Some(DEFAULT_TOOL_GUIDELINES.to_owned());
        b
    }

    /// Set the environment context.
    pub fn environment(self, env: EnvironmentInfo) -> (r: Self)
        ensures
            r.environment_view() == Some(env),
            r.same_except(&self, false, false, false, false, true, false, false, false, false),
    {
        let mut b = self;
        b.environment = Some(env);
        b
    }

    /// Set the discovered instruction files.
    pub fn instructions(self, instructions: Vec<DiscoveredInstruction>) -> (r: Self)
        ensures
            r.instructions_view() == Some(instructions@),
            r.same_except(&self, false, false, false, false, false, true, false, false, false),
    {
        let mut b = self;
        b.instructions = Some(instructions);
        b
    }

    /// Add a custom section; custom sections are appended in order.
    pub fn custom(self, section: &str) -> (r: Self)
        ensures
            r.custom_view() == self.custom_view().push(section@),
            r.same_except(&self, false, false, false, false, false, false, true, false, false),
    {
        let mut b = self;
        b.custom_sections.push(section.to_owned());
        assert(b.custom_view() =~= self.custom_view().push(section@));
        b
    }

    /// Set the tool definitions section.
    pub fn tool_defs(self, defs: &str) -> (r: Self)
        ensures
            r.tool_defs_view() == Some(defs@),
            r.same_except(&self, false, false, false, false, false, false, false, true, false),
    {
        let mut b = self;
        b.tool_defs = Some(defs.to_owned());
        b
    }

    /// Set the memory context section.
    pub fn memory(self, memory: &str) -> (r: Self)
        ensures
            r.memory_view() == Some(memory@),
            r.same_except(&self, false, false, false, false, false, false, false, false, true),
    {
        let mut b = self;
        b.memory = Some(memory.to_owned());
        b
    }

    /// Build the system prompt: the non-empty sections in order, separated
    /// by blank lines.
    pub fn build(&self) -> (r: String)
        ensures
            r@ == self.build_spec(),
    {
        let mut sections: Vec<String> = Vec::new();
        match &self.identity {
            Some(i) => sections.push(i.clone()),
            None => sections.push(DEFAULT_IDENTITY.to_owned()),
        }
        match &self.mode {
            Some(mode) => {
                match &self.mode_override {
                    Some(o) => sections.push(o.clone()),
                    None => sections.push(mode.default_instructions().to_owned()),
                }
            },
            None => {},
        }
        match &self.tool_guidelines {
            Some(g) => sections.push(g.clone()),
            None => {},
        }
        match &self.environment {
            Some(env) => sections.push(format_environment(env)),
            None => {},
        }
        assert(views_of(sections@) =~= self.head_sections());
        match &self.instructions {
            Some(instructions) => {
                if instructions.len() > 0 {
                    let mut entries: Vec<String> = Vec::new();
                    let mut i: usize = 0;
                    while i < instructions.len()
                        invariant
                            i <= instructions@.len(),
                            entries@.len() == i,
                            forall|j: int| 0 <= j < i ==> #[trigger] entries@[j]@ == instruction_entry(instructions@[j]),
                        decreases instructions@.len() - i,
                    {
                        let mut e = String::new();
                        e.append("## ");
                        e.append(instructions[i].path.as_str());
                        e.append("\n\n");
                        e.append(instructions[i].content.as_str());
                        entries.push(e);
                        i = i + 1;
                    }
                    assert(views_of(entries@) =~= instructions@.map_values(|i: DiscoveredInstruction| instruction_entry(i)));
                    let joined = join_strings(entries.as_slice(), "\n\n");
                    let mut section = String::new();
                    section.append("# Project Instructions\n\n");
                    section.append(joined.as_str());
                    sections.push(section);
                }
            },
            None => {},
        }
        assert(views_of(sections@) =~= self.sections_through_instructions());
        let ghost before_custom = views_of(sections@);
        let mut k: usize = 0;
        while k < self.custom_sections.len()
            invariant
                k <= self.custom_sections@.len(),
                views_of(sections@) == before_custom + non_empty(self.custom_view().take(k as int)),
            decreases self.custom_sections@.len() - k,
        {
            let section = &self.custom_sections[k];
            proof {
                let pred = is_non_empty();
                assert(self.custom_view()[k as int] == section@);
                assert(self.custom_view().take(k + 1) =~= self.custom_view().take(k as int).push(section@));
                self.custom_view().take(k as int).lemma_filter_push(section@, pred);
            }
            let ghost prev = views_of(sections@);
            if !section.as_str().is_empty() {
                sections.push(section.clone());
                assert(views_of(sections@) =~= prev.push(section@));
                assert(is_non_empty()(section@));
                assert(non_empty(self.custom_view().take(k + 1)) == non_empty(self.custom_view().take(k as int)).push(section@));
                assert(views_of(sections@) =~= before_custom + non_empty(self.custom_view().take(k + 1)));
            } else {
                assert(views_of(sections@) =~= before_custom + non_empty(self.custom_view().take(k + 1)));
            }
            k = k + 1;
        }
        assert(self.custom_view().take(self.custom_view().len() as int) =~= self.custom_view());
        assert(views_of(sections@) =~= self.sections_through_instructions() + non_empty(self.custom_view()));
        match &self.tool_defs {
            Some(t) => {
                if !t.as_str().is_empty() {
                    sections.push(t.clone());
                }
            },
            None => {},
        }
        match &self.memory {
            Some(m) => {
                if !m.as_str().is_empty() {
                    let mut section = String::new();
                    section.append("# Memory Context\n\n");
                    section.append(m.as_str());
                    sections.push(section);
                }
            },
            None => {},
        }
        assert(views_of(sections@) =~= self.sections());
        join_strings(sections.as_slice(), "\n\n")
    }
}

impl Default for SystemPromptBuilder {
    fn default() -> (r: Self)
        ensures
            r.is_blank(),
    {
        Self::new()
    }
}

/// Law: the prompt always starts with the identity section.
pub proof fn law_identity_first(b: SystemPromptBuilder)
    ensures
        b.sections().len() >= 1,
        b.sections()[0] == (match b.identity_view() { Some(i) => i, None => DEFAULT_IDENTITY@ }),
{
    lemma_sections_start(b);
}

proof fn lemma_sections_start(b: SystemPromptBuilder)
    ensures
        b.sections().len() >= 1,
        b.sections()[0] == (match b.identity_view() { Some(i) => i, None => DEFAULT_IDENTITY@ }),
{
}

} // verus!
