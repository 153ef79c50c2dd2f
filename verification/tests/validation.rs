use simse_core::config::{
    AcpConfig, AcpServerEntry, ChainDefinition, ChainStepDefinition, LoopConfig, McpClientConfig, McpConfig,
    McpServerConfig, McpServerConnection, McpTransport, ParallelConfigDefinition, ParallelSubStepDefinition,
    PromptsConfig, StepProvider, ToolsConfig, ValidationIssue,
};
use simse_core::error::SimseError;
use simse_core::validation::{
    check_url, define_config, validate_acp_config, validate_app_config, validate_chain_definition,
    validate_int_range, validate_library_config, validate_mcp_server_config, validate_mcp_server_connection,
    AppConfig, LibrarySettings, RangeCheck,
};
use simse_core::values::ValueMap;

fn s(x: &str) -> String {
    x.to_string()
}

fn server(name: &str) -> AcpServerEntry {
    AcpServerEntry {
        name: s(name),
        command: s("agent"),
        args: None,
        cwd: None,
        env: None,
        default_agent: None,
        timeout_ms: None,
        permission_policy: None,
    }
}

fn paths(v: &[ValidationIssue]) -> Vec<(String, String)> {
    v.iter().map(|i| (i.path.clone(), i.message.clone())).collect()
}

fn step(name: &str, template: &str) -> ChainStepDefinition {
    ChainStepDefinition {
        name: s(name),
        template: s(template),
        provider: None,
        agent_id: None,
        server_name: None,
        agent_config: None,
        system_prompt: None,
        input_mapping: None,
        mcp_server_name: None,
        mcp_tool_name: None,
        mcp_arguments: None,
        store_to_memory: None,
        memory_metadata: None,
        parallel: None,
    }
}

fn sub(name: &str) -> ParallelSubStepDefinition {
    ParallelSubStepDefinition {
        name: s(name),
        template: s("t"),
        provider: None,
        agent_id: None,
        server_name: None,
        agent_config: None,
        system_prompt: None,
        mcp_server_name: None,
        mcp_tool_name: None,
        mcp_arguments: None,
    }
}

fn app(servers: Vec<AcpServerEntry>) -> AppConfig {
    AppConfig {
        acp: AcpConfig { servers, default_server: None, default_agent: None },
        mcp: McpConfig {
            client: McpClientConfig { servers: vec![], client_name: None, client_version: None },
            server: McpServerConfig { enabled: false, transport: McpTransport::Stdio, name: None, version: None },
        },
        library: LibrarySettings { enabled: false, embedding_agent: None, similarity_threshold: None, max_results: None },
        tools: ToolsConfig { max_output_chars: None },
        loop_config: LoopConfig { max_turns: None, max_identical_tool_calls: None, auto_compact_chars: None },
        prompts: PromptsConfig { system_prompt: None },
        chains: vec![],
    }
}

#[test]
fn url_checks() {
    assert!(check_url("http://localhost:3000"));
    assert!(check_url("git+ssh://host"));
    assert!(!check_url("localhost:3000"));
    assert!(!check_url("://host"));
    assert!(!check_url("http://"));
    assert!(!check_url("ht tp://host"));
    assert!(!check_url("http://://x"));
}

#[test]
fn int_range_messages() {
    assert_eq!(paths(&validate_int_range(500, "p", "timeoutMs", 1000, 600_000)), vec![(s("p"), s("timeoutMs must be at least 1000"))]);
    assert_eq!(paths(&validate_int_range(700_000, "p", "timeoutMs", 1000, 600_000)), vec![(s("p"), s("timeoutMs must be at most 600000"))]);
    assert!(validate_int_range(1000, "p", "timeoutMs", 1000, 600_000).is_empty());
}

#[test]
fn acp_config_validation() {
    let empty = AcpConfig { servers: vec![], default_server: None, default_agent: None };
    assert_eq!(paths(&validate_acp_config(&empty, "acp")), vec![(s("acp.servers"), s("At least one ACP server must be configured"))]);

    let mut bad = server("");
    bad.timeout_ms = Some(10);
    let cfg = AcpConfig { servers: vec![server("a"), bad], default_server: None, default_agent: None };
    assert_eq!(
        paths(&validate_acp_config(&cfg, "acp")),
        vec![
            (s("acp.servers[1].name"), s("ACP server name cannot be empty")),
            (s("acp.servers[1].timeoutMs"), s("timeoutMs must be at least 1000")),
        ]
    );

    let dup = AcpConfig { servers: vec![server("a"), server("a")], default_server: Some(s("zz")), default_agent: None };
    assert_eq!(
        paths(&validate_acp_config(&dup, "acp")),
        vec![
            (s("acp.servers"), s("Duplicate ACP server name: \"a\"")),
            (s("acp.defaultServer"), s("Default server \"zz\" is not defined in servers (available: a, a)")),
        ]
    );
}

#[test]
fn mcp_validation() {
    let conn = McpServerConnection { name: s("x"), transport: McpTransport::Http, command: None, args: None, env: None, url: Some(s("nope")) };
    assert_eq!(paths(&validate_mcp_server_connection(&conn, "m")), vec![(s("m.url"), s("http URL must be a valid URL"))]);
    let stdio = McpServerConnection { name: s(""), transport: McpTransport::Stdio, command: None, args: None, env: None, url: None };
    assert_eq!(
        paths(&validate_mcp_server_connection(&stdio, "m")),
        vec![(s("m.name"), s("MCP server name cannot be empty")), (s("m.command"), s("stdio command cannot be empty"))]
    );
    let srv = McpServerConfig { enabled: true, transport: McpTransport::Stdio, name: None, version: Some(s("1.0")) };
    assert_eq!(
        paths(&validate_mcp_server_config(&srv, "mcp.server")),
        vec![
            (s("mcp.server.name"), s("MCP server name is required when enabled")),
            (s("mcp.server.version"), s("MCP server version must be semver (e.g. 1.0.0)")),
        ]
    );
    let ok = McpServerConfig { enabled: true, transport: McpTransport::Stdio, name: Some(s("n")), version: Some(s("1.2.3")) };
    assert!(validate_mcp_server_config(&ok, "mcp.server").is_empty());
}

#[test]
fn library_validation() {
    let l = LibrarySettings { enabled: true, embedding_agent: None, similarity_threshold: Some(RangeCheck::AboveMax), max_results: Some(0) };
    assert_eq!(
        paths(&validate_library_config(&l, "library")),
        vec![
            (s("library.embeddingAgent"), s("Embedding agent ID is required when library is enabled")),
            (s("library.similarityThreshold"), s("Similarity threshold must be at most 1")),
            (s("library.maxResults"), s("maxResults must be at least 1")),
        ]
    );
}

#[test]
fn chain_validation() {
    let empty = ChainDefinition { description: None, agent_id: None, server_name: None, initial_values: ValueMap::new(), steps: vec![] };
    assert_eq!(paths(&validate_chain_definition(&empty, "chains.c")), vec![(s("chains.c.steps"), s("A chain must have at least one step"))]);
    let mut mcp = step("fetch", "x");
    mcp.provider = Some(StepProvider::Mcp);
    let mut par = step("fan", "x");
    par.parallel = Some(ParallelConfigDefinition { sub_steps: vec![sub("1bad")], merge_strategy: None, fail_tolerant: None, concat_separator: None });
    let c = ChainDefinition { description: None, agent_id: None, server_name: None, initial_values: ValueMap::new(), steps: vec![step("ok", "t"), mcp, par] };
    assert_eq!(
        paths(&validate_chain_definition(&c, "chains.c")),
        vec![
            (s("chains.c.steps[1].mcpServerName"), s("MCP step requires \"mcpServerName\" to be set")),
            (s("chains.c.steps[1].mcpToolName"), s("MCP step requires \"mcpToolName\" to be set")),
            (s("chains.c.steps[2].parallel.subSteps"), s("Parallel config must have at least 2 sub-steps")),
            (s("chains.c.steps[2].parallel.subSteps[0].name"), s("Sub-step name must start with a letter or underscore and contain only word characters or hyphens")),
        ]
    );
    let d = ChainDefinition { description: None, agent_id: None, server_name: None, initial_values: ValueMap::new(), steps: vec![step("a", "t"), step("a", "t")] };
    assert_eq!(paths(&validate_chain_definition(&d, "chains.d")), vec![(s("chains.d.steps"), s("Duplicate step name: \"a\""))]);
}

#[test]
fn define_config_strict_and_lenient() {
    let mut cfg = app(vec![server("main")]);
    cfg.mcp.server.enabled = true;
    match define_config(cfg.clone(), false) {
        Err(SimseError::Config { message, .. }) => assert_eq!(
            message,
            "Config validation failed: mcp.server.name: MCP server name is required when enabled; mcp.server.version: MCP server version is required when enabled"
        ),
        _ => panic!("expected a validation error"),
    }
    let (out, warnings) = define_config(cfg, true).ok().unwrap();
    assert_eq!(warnings.len(), 2);
    assert!(!out.mcp.server.enabled || out.mcp.server.name.is_none());
    assert_eq!(out.acp.servers[0].timeout_ms, Some(30_000));

    match define_config(app(vec![]), true) {
        Err(SimseError::Config { message, .. }) => assert_eq!(message, "ACP servers are required and must be a non-empty array"),
        _ => panic!("expected an error"),
    }
}

#[test]
fn define_config_resolves_chains() {
    let mut cfg = app(vec![server("main")]);
    let mut par = step("fan", "x");
    par.server_name = Some(s("special"));
    par.parallel = Some(ParallelConfigDefinition { sub_steps: vec![sub("a"), sub("b")], merge_strategy: None, fail_tolerant: None, concat_separator: None });
    cfg.chains = vec![(s("c"), ChainDefinition {
        description: None,
        agent_id: Some(s("agent-x")),
        server_name: Some(s("main")),
        initial_values: ValueMap::new(),
        steps: vec![step("one", "t"), par],
    })];
    assert!(validate_app_config(&cfg).is_empty());
    let (out, warnings) = define_config(cfg, false).ok().unwrap();
    assert!(warnings.is_empty());
    let steps = &out.chains[0].1.steps;
    assert_eq!(steps[0].agent_id, Some(s("agent-x")));
    assert_eq!(steps[0].server_name, Some(s("main")));
    assert_eq!(steps[1].server_name, Some(s("special")));
    let subs = &steps[1].parallel.as_ref().unwrap().sub_steps;
    assert_eq!(subs[0].server_name, Some(s("special")));
    assert_eq!(subs[1].agent_id, Some(s("agent-x")));
}
