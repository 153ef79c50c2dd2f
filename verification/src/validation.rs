//! Semantic validation of the application configuration, and the defaults
//! and inheritance applied to a configuration once it is accepted.
//!
//! Each check yields its issues (a path into the configuration and a
//! message) in the order the configuration is walked. Parsing the JSON text
//! of a configuration happens before, where it is read.

use vstd::prelude::*;
use crate::config::{
    AcpConfig, AcpServerEntry, ChainDefinition, ChainStepDefinition, LoopConfig, McpClientConfig, McpConfig,
    McpServerConfig, McpServerConnection, McpTransport, ParallelConfigDefinition, ParallelSubStepDefinition,
    PromptsConfig, StepProvider, ToolsConfig, ValidationIssue,
};
use crate::error::{ConfigErrorCode, SimseError};
use crate::prompts::provider::{regex_is_match, source_is_match};
use crate::text::{chars_of, decimal, join_seqs, push_decimal, push_decimal_u64, str_eq, views_of};

verus! {

// ---------------------------------------------------------------------------
// Issues
// ---------------------------------------------------------------------------

/// An issue as a (path, message) pair.
pub type Issue = (Seq<char>, Seq<char>);

/// The (path, message) pairs of a list of issues.
pub open spec fn issues_view(v: Seq<ValidationIssue>) -> Seq<Issue> {
    v.map_values(|i: ValidationIssue| (i.path@, i.message@))
}

/// A single issue.
pub open spec fn one(path: Seq<char>, message: Seq<char>) -> Seq<Issue> {
    seq![(path, message)]
}

/// `path` + `suffix`.
pub fn sub_path(path: &str, suffix: &str) -> (r: String)
    ensures
        r@ == path@ + suffix@,
{
    let mut s = String::new();
    s.append(path);
    s.append(suffix);
    s
}

/// `path` + `field` + `[i]`.
pub fn indexed_path(path: &str, field: &str, i: usize) -> (r: String)
    ensures
        r@ == path@ + field@ + "["@ + decimal(i as nat) + "]"@,
{
    let mut s = String::new();
    s.append(path);
    s.append(field);
    s.append("[");
    push_decimal(&mut s, i);
    s.append("]");
    s
}

fn push_issue(issues: &mut Vec<ValidationIssue>, path: String, message: String)
    ensures
        issues_view(final(issues)@) == issues_view(old(issues)@).push((path@, message@)),
{
    let ghost p = path@;
    let ghost m = message@;
    issues.push(ValidationIssue { path, message });
    assert(issues_view(issues@) =~= issues_view(old(issues)@).push((p, m)));
}

fn append_issues(issues: &mut Vec<ValidationIssue>, more: Vec<ValidationIssue>)
    ensures
        issues_view(final(issues)@) == issues_view(old(issues)@) + issues_view(more@),
{
    let ghost before = issues_view(issues@);
    let ghost added = issues_view(more@);
    let mut rest = more;
    let ghost all = rest@;
    let mut k: usize = 0;
    let n = rest.len();
    while k < n
        invariant
            n == all.len(),
            k <= n,
            issues_view(issues@) == before + issues_view(all.take(k as int)),
            rest@ == all.skip(k as int),
            added == issues_view(all),
        decreases n - k,
    {
        let item = rest.remove(0);
        assert(item == all[k as int]);
        let ghost prev = issues_view(issues@);
        issues.push(item);
        assert(issues_view(issues@) =~= prev.push((all[k as int].path@, all[k as int].message@)));
        assert(issues_view(all.take(k + 1)) =~= issues_view(all.take(k as int)).push(
            (all[k as int].path@, all[k as int].message@)));
        assert(all.skip(k + 1) =~= all.skip(k as int).drop_first());
        k = k + 1;
    }
    assert(all.take(n as int) =~= all);
}

/// The issue of an empty value.
pub open spec fn non_empty_issues(value: Seq<char>, path: Seq<char>, label: Seq<char>) -> Seq<Issue> {
    if value.len() == 0 {
        one(path, label + " cannot be empty"@)
    } else {
        Seq::empty()
    }
}

/// `{label} cannot be empty` at `path` when the value is empty.
pub fn validate_non_empty(value: &str, path: &str, label: &str) -> (r: Vec<ValidationIssue>)
    ensures
        issues_view(r@) == non_empty_issues(value@, path@, label@),
{
    let mut r: Vec<ValidationIssue> = Vec::new();
    if value.is_empty() {
        push_issue(&mut r, path.to_owned(), sub_path(label, " cannot be empty"));
    }
    assert(issues_view(r@) =~= non_empty_issues(value@, path@, label@));
    r
}

/// The issue of an integer outside `[min, max]`.
pub open spec fn range_issues(value: nat, path: Seq<char>, label: Seq<char>, min: nat, max: nat) -> Seq<Issue> {
    if value < min {
        one(path, label + " must be at least "@ + decimal(min))
    } else if value > max {
        one(path, label + " must be at most "@ + decimal(max))
    } else {
        Seq::empty()
    }
}

/// `{label} must be at least/most ..` at `path` when the integer lies
/// outside `[min, max]`.
pub fn validate_int_range(value: u64, path: &str, label: &str, min: u64, max: u64) -> (r: Vec<ValidationIssue>)
    ensures
        issues_view(r@) == range_issues(value as nat, path@, label@, min as nat, max as nat),
{
    let mut r: Vec<ValidationIssue> = Vec::new();
    if value < min {
        let mut m = sub_path(label, " must be at least ");
        push_decimal_u64(&mut m, min);
        push_issue(&mut r, path.to_owned(), m);
    } else if value > max {
        let mut m = sub_path(label, " must be at most ");
        push_decimal_u64(&mut m, max);
        push_issue(&mut r, path.to_owned(), m);
    }
    assert(issues_view(r@) =~= range_issues(value as nat, path@, label@, min as nat, max as nat));
    r
}

// ---------------------------------------------------------------------------
// URLs
// ---------------------------------------------------------------------------

/// `s` has `://` at position `i`.
pub open spec fn sep_at(s: Seq<char>, i: int) -> bool {
    0 <= i && i + 3 <= s.len() && s[i] == ':' && s[i + 1] == '/' && s[i + 2] == '/'
}

/// A character allowed in a URL scheme.
pub open spec fn scheme_char(c: char) -> bool {
    ('a' <= c <= 'z') || ('A' <= c <= 'Z') || ('0' <= c <= '9') || c == '+' || c == '-' || c == '.'
}

/// A URL has a non-empty scheme of scheme characters before its first
/// `://`, and something other than another `://` right after it.
pub open spec fn url_ok(s: Seq<char>) -> bool {
    exists|i: int| #![trigger sep_at(s, i)] sep_at(s, i) && (forall|j: int| 0 <= j < i ==> !#[trigger] sep_at(s, j))
        && i > 0 && (forall|j: int| 0 <= j < i ==> #[trigger] scheme_char(s[j]))
        && i + 3 < s.len() && !sep_at(s, i + 3)
}

/// The issue of a text that is not a valid URL.
pub open spec fn url_issues(value: Seq<char>, path: Seq<char>, label: Seq<char>) -> Seq<Issue> {
    if url_ok(value) {
        Seq::empty()
    } else {
        one(path, label + " must be a valid URL"@)
    }
}

fn is_scheme_char(c: char) -> (r: bool)
    ensures
        r == scheme_char(c),
{
    ('a' <= c && c <= 'z') || ('A' <= c && c <= 'Z') || ('0' <= c && c <= '9') || c == '+' || c == '-' || c == '.'
}

fn sep_at_exec(s: &[char], i: usize) -> (r: bool)
    ensures
        r == sep_at(s@, i as int),
{
    i < s.len() && s.len() - i >= 3 && s[i] == ':' && s[i + 1] == '/' && s[i + 2] == '/'
}

/// Whether a text is a URL in the sense of `url_ok`.
pub fn check_url(value: &str) -> (r: bool)
    ensures
        r == url_ok(value@),
{
    let cs = chars_of(value);
    let mut i: usize = 0;
    let mut scheme_ok = true;
    while i < cs.len()
        invariant
            cs@ == value@,
            i <= cs@.len(),
            forall|j: int| 0 <= j < i ==> !#[trigger] sep_at(value@, j),
            scheme_ok == (forall|j: int| 0 <= j < i ==> #[trigger] scheme_char(value@[j])),
        decreases cs@.len() - i,
    {
        if sep_at_exec(cs.as_slice(), i) {
            let ok = scheme_ok && i > 0 && cs.len() - i > 3 && !sep_at_exec(cs.as_slice(), i + 3);
            proof {
                if url_ok(value@) {
                    let k = choose|k: int| #![trigger sep_at(value@, k)] sep_at(value@, k)
                        && (forall|j: int| 0 <= j < k ==> !#[trigger] sep_at(value@, j))
                        && k > 0 && (forall|j: int| 0 <= j < k ==> #[trigger] scheme_char(value@[j]))
                        && k + 3 < value@.len() && !sep_at(value@, k + 3);
                    assert(k == i);
                }
            }
            return ok;
        }
        let c = cs[i];
        scheme_ok = scheme_ok && is_scheme_char(c);
        i = i + 1;
    }
    false
}

/// `{label} must be a valid URL` at `path` unless the value is a URL.
pub fn validate_config_url(value: &str, path: &str, label: &str) -> (r: Vec<ValidationIssue>)
    ensures
        issues_view(r@) == url_issues(value@, path@, label@),
{
    let mut r: Vec<ValidationIssue> = Vec::new();
    if !check_url(value) {
        push_issue(&mut r, path.to_owned(), sub_path(label, " must be a valid URL"));
    }
    assert(issues_view(r@) =~= url_issues(value@, path@, label@));
    r
}

// ---------------------------------------------------------------------------
// Duplicate names
// ---------------------------------------------------------------------------

/// One issue at `path` for every name that occurred before (the empty name
/// too when `skip_empty` is false), in order.
pub open spec fn duplicate_issues(names: Seq<Seq<char>>, path: Seq<char>, prefix: Seq<char>, skip_empty: bool)
    -> Seq<Issue>
    decreases names.len(),
{
    if names.len() == 0 {
        Seq::empty()
    } else {
        let prev = duplicate_issues(names.drop_last(), path, prefix, skip_empty);
        let n = names.last();
        if !(skip_empty && n.len() == 0) && names.drop_last().contains(n) {
            prev.push((path, prefix + n + "\""@))
        } else {
            prev
        }
    }
}

fn contains_name(names: &Vec<String>, upto: usize, name: &str) -> (r: bool)
    requires
        upto <= names@.len(),
    ensures
        r == views_of(names@).take(upto as int).contains(name@),
{
    let mut i: usize = 0;
    while i < upto
        invariant
            upto <= names@.len(),
            i <= upto,
            forall|j: int| 0 <= j < i ==> names@[j]@ != name@,
        decreases upto - i,
    {
        if str_eq(names[i].as_str(), name) {
            assert(views_of(names@).take(upto as int)[i as int] == name@);
            return true;
        }
        i = i + 1;
    }
    assert(!views_of(names@).take(upto as int).contains(name@)) by {
        if views_of(names@).take(upto as int).contains(name@) {
            let j = choose|j: int| 0 <= j < upto && views_of(names@).take(upto as int)[j] == name@;
            assert(names@[j]@ == name@);
        }
    }
    false
}

/// The issues of repeated names: `{prefix}{name}"` at `path` for every name
/// seen before.
pub fn duplicate_name_issues(names: &Vec<String>, path: &str, prefix: &str, skip_empty: bool)
    -> (r: Vec<ValidationIssue>)
    ensures
        issues_view(r@) == duplicate_issues(views_of(names@), path@, prefix@, skip_empty),
{
    let mut r: Vec<ValidationIssue> = Vec::new();
    let mut k: usize = 0;
    while k < names.len()
        invariant
            k <= names@.len(),
            issues_view(r@) == duplicate_issues(views_of(names@).take(k as int), path@, prefix@, skip_empty),
        decreases names@.len() - k,
    {
        let ghost vk = views_of(names@).take(k + 1);
        proof {
            assert(vk.drop_last() =~= views_of(names@).take(k as int));
            assert(vk.last() == names@[k as int]@);
        }
        let skip = skip_empty && names[k].as_str().is_empty();
        if !skip && contains_name(names, k, names[k].as_str()) {
            let mut m = sub_path(prefix, names[k].as_str());
            m.append("\"");
            push_issue(&mut r, path.to_owned(), m);
        }
        k = k + 1;
    }
    assert(views_of(names@).take(names@.len() as int) =~= views_of(names@));
    r
}

// ---------------------------------------------------------------------------
// ACP
// ---------------------------------------------------------------------------

/// The issues of an ACP server entry.
pub open spec fn acp_server_issues(v: AcpServerEntry, path: Seq<char>) -> Seq<Issue> {
    non_empty_issues(v.name@, path + ".name"@, "ACP server name"@)
        + non_empty_issues(v.command@, path + ".command"@, "ACP server command"@)
        + (match v.default_agent {
            Some(a) => non_empty_issues(a@, path + ".defaultAgent"@, "Default agent ID"@),
            None => Seq::empty(),
        })
        + (match v.timeout_ms {
            Some(t) => range_issues(t as nat, path + ".timeoutMs"@, "timeoutMs"@, 1000, 600000),
            None => Seq::empty(),
        })
}

/// Validates an ACP server entry.
pub fn validate_acp_server_entry(value: &AcpServerEntry, path: &str) -> (r: Vec<ValidationIssue>)
    ensures
        issues_view(r@) == acp_server_issues(*value, path@),
{
    let mut r = validate_non_empty(value.name.as_str(), sub_path(path, ".name").as_str(), "ACP server name");
    append_issues(&mut r, validate_non_empty(value.command.as_str(), sub_path(path, ".command").as_str(),
        "ACP server command"));
    let ghost a = issues_view(r@);
    match &value.default_agent {
        Some(agent) => append_issues(&mut r, validate_non_empty(agent.as_str(),
            sub_path(path, ".defaultAgent").as_str(), "Default agent ID")),
        None => {},
    }
    assert(issues_view(r@) =~= a + match value.default_agent {
        Some(ag) => non_empty_issues(ag@, path@ + ".defaultAgent"@, "Default agent ID"@),
        None => Seq::empty(),
    });
    let ghost b = issues_view(r@);
    match value.timeout_ms {
        Some(t) => append_issues(&mut r, validate_int_range(t, sub_path(path, ".timeoutMs").as_str(), "timeoutMs",
            1000, 600000)),
        None => {},
    }
    assert(issues_view(r@) =~= b + match value.timeout_ms {
        Some(t) => range_issues(t as nat, path@ + ".timeoutMs"@, "timeoutMs"@, 1000, 600000),
        None => Seq::empty(),
    });
    r
}

/// The issues of the entries, each at `{path}.servers[i]`, in order.
pub open spec fn acp_entries_issues(servers: Seq<AcpServerEntry>, path: Seq<char>) -> Seq<Issue>
    decreases servers.len(),
{
    if servers.len() == 0 {
        Seq::empty()
    } else {
        acp_entries_issues(servers.drop_last(), path) + acp_server_issues(servers.last(),
            path + ".servers"@ + "["@ + decimal((servers.len() - 1) as nat) + "]"@)
    }
}

/// The names of the ACP servers.
pub open spec fn acp_names(servers: Seq<AcpServerEntry>) -> Seq<Seq<char>> {
    servers.map_values(|s: AcpServerEntry| s.name@)
}

/// The issues of an ACP configuration.
pub open spec fn acp_config_issues(v: AcpConfig, path: Seq<char>) -> Seq<Issue> {
    if v.servers@.len() == 0 {
        one(path + ".servers"@, "At least one ACP server must be configured"@)
    } else {
        let entries = acp_entries_issues(v.servers@, path);
        let names = acp_names(v.servers@);
        entries
            + (if entries.len() == 0 {
                duplicate_issues(names, path + ".servers"@, "Duplicate ACP server name: \""@, false)
            } else {
                Seq::empty()
            })
            + (match v.default_server {
                Some(d) => non_empty_issues(d@, path + ".defaultServer"@, "Default server name"@),
                None => Seq::empty(),
            })
            + (match v.default_agent {
                Some(a) => non_empty_issues(a@, path + ".defaultAgent"@, "Default agent ID"@),
                None => Seq::empty(),
            })
            + (match v.default_server {
                Some(d) => if d@.len() > 0 && !names.contains(d@) {
                    one(path + ".defaultServer"@, "Default server \""@ + d@ + "\" is not defined in servers (available: "@
                        + join_seqs(names, ", "@) + ")"@)
                } else {
                    Seq::empty()
                },
                None => Seq::empty(),
            })
    }
}

/// Validates an ACP configuration: at least one server, each server valid,
/// no name twice (checked once every server is valid), and a default
/// server that names one of them.
pub fn validate_acp_config(value: &AcpConfig, path: &str) -> (r: Vec<ValidationIssue>)
    ensures
        issues_view(r@) == acp_config_issues(*value, path@),
{
    let mut r: Vec<ValidationIssue> = Vec::new();
    if value.servers.len() == 0 {
        push_issue(&mut r, sub_path(path, ".servers"), "At least one ACP server must be configured".to_owned());
        assert(issues_view(r@) =~= acp_config_issues(*value, path@));
        return r;
    }
    let mut names: Vec<String> = Vec::new();
    let mut i: usize = 0;
    while i < value.servers.len()
        invariant
            i <= value.servers@.len(),
            issues_view(r@) == acp_entries_issues(value.servers@.take(i as int), path@),
            views_of(names@) == acp_names(value.servers@.take(i as int)),
        decreases value.servers@.len() - i,
    {
        let ghost before = issues_view(r@);
        proof {
            assert(value.servers@.take(i + 1).drop_last() =~= value.servers@.take(i as int));
            assert(value.servers@.take(i + 1).last() == value.servers@[i as int]);
        }
        let p = indexed_path(path, ".servers", i);
        append_issues(&mut r, validate_acp_server_entry(&value.servers[i], p.as_str()));
        let ghost vn = views_of(names@);
        names.push(value.servers[i].name.clone());
        assert(views_of(names@) =~= vn.push(value.servers@[i as int].name@));
        assert(acp_names(value.servers@.take(i + 1)) =~= acp_names(value.servers@.take(i as int)).push(
            value.servers@[i as int].name@));
        i = i + 1;
    }
    assert(value.servers@.take(value.servers@.len() as int) =~= value.servers@);
    let ghost entries = issues_view(r@);
    if r.len() == 0 {
        append_issues(&mut r, duplicate_name_issues(&names, sub_path(path, ".servers").as_str(),
            "Duplicate ACP server name: \"", false));
    }
    let ghost e2 = issues_view(r@);
    match &value.default_server {
        Some(d) => append_issues(&mut r, validate_non_empty(d.as_str(), sub_path(path, ".defaultServer").as_str(),
            "Default server name")),
        None => {},
    }
    let ghost e3 = issues_view(r@);
    match &value.default_agent {
        Some(a) => append_issues(&mut r, validate_non_empty(a.as_str(), sub_path(path, ".defaultAgent").as_str(),
            "Default agent ID")),
        None => {},
    }
    let ghost e4 = issues_view(r@);
    match &value.default_server {
        Some(d) => {
            if !d.as_str().is_empty() && !contains_name(&names, names.len(), d.as_str()) {
                let mut m = String::new();
                m.append("Default server \"");
                m.append(d.as_str());
                m.append("\" is not defined in servers (available: ");
                let joined = crate::text::join_strings(names.as_slice(), ", ");
                m.append(joined.as_str());
                m.append(")");
                push_issue(&mut r, sub_path(path, ".defaultServer"), m);
            }
        },
        None => {},
    }
    assert(views_of(names@).take(names@.len() as int) =~= views_of(names@));
    assert(issues_view(r@) =~= acp_config_issues(*value, path@));
    r
}

// ---------------------------------------------------------------------------
// MCP
// ---------------------------------------------------------------------------

/// The issues of an MCP server connection.
pub open spec fn mcp_connection_issues(v: McpServerConnection, path: Seq<char>) -> Seq<Issue> {
    non_empty_issues(v.name@, path + ".name"@, "MCP server name"@) + match v.transport {
        McpTransport::Stdio => match v.command {
            Some(c) => non_empty_issues(c@, path + ".command"@, "stdio command"@),
            None => one(path + ".command"@, "stdio command cannot be empty"@),
        },
        McpTransport::Http => match v.url {
            Some(u) => url_issues(u@, path + ".url"@, "http URL"@),
            None => one(path + ".url"@, "http URL must be a valid URL"@),
        },
    }
}

/// Validates an MCP server connection: a name, and a command (stdio) or a
/// URL (http).
pub fn validate_mcp_server_connection(value: &McpServerConnection, path: &str) -> (r: Vec<ValidationIssue>)
    ensures
        issues_view(r@) == mcp_connection_issues(*value, path@),
{
    let mut r = validate_non_empty(value.name.as_str(), sub_path(path, ".name").as_str(), "MCP server name");
    let more = match value.transport {
        McpTransport::Stdio => match &value.command {
            Some(c) => validate_non_empty(c.as_str(), sub_path(path, ".command").as_str(), "stdio command"),
            None => {
                let mut v: Vec<ValidationIssue> = Vec::new();
                push_issue(&mut v, sub_path(path, ".command"), "stdio command cannot be empty".to_owned());
                v
            },
        },
        McpTransport::Http => match &value.url {
            Some(u) => validate_config_url(u.as_str(), sub_path(path, ".url").as_str(), "http URL"),
            None => {
                let mut v: Vec<ValidationIssue> = Vec::new();
                push_issue(&mut v, sub_path(path, ".url"), "http URL must be a valid URL".to_owned());
                v
            },
        },
    };
    proof {
        assert(issues_view(Seq::<ValidationIssue>::empty()) =~= Seq::<Issue>::empty());
    }
    append_issues(&mut r, more);
    r
}

/// The issues of the connections, each at `{path}.servers[i]`, in order.
pub open spec fn mcp_connections_issues(servers: Seq<McpServerConnection>, path: Seq<char>) -> Seq<Issue>
    decreases servers.len(),
{
    if servers.len() == 0 {
        Seq::empty()
    } else {
        mcp_connections_issues(servers.drop_last(), path) + mcp_connection_issues(servers.last(),
            path + ".servers"@ + "["@ + decimal((servers.len() - 1) as nat) + "]"@)
    }
}

/// The issues of an MCP client configuration.
pub open spec fn mcp_client_issues(v: McpClientConfig, path: Seq<char>) -> Seq<Issue> {
    let entries = mcp_connections_issues(v.servers@, path);
    entries + if entries.len() == 0 {
        duplicate_issues(v.servers@.map_values(|c: McpServerConnection| c.name@), path + ".servers"@,
            "Duplicate MCP server name: \""@, false)
    } else {
        Seq::empty()
    }
}

/// Validates an MCP client configuration: each connection valid, and no
/// name twice (checked once every connection is valid).
pub fn validate_mcp_client_config(value: &McpClientConfig, path: &str) -> (r: Vec<ValidationIssue>)
    ensures
        issues_view(r@) == mcp_client_issues(*value, path@),
{
    let mut r: Vec<ValidationIssue> = Vec::new();
    let mut names: Vec<String> = Vec::new();
    let mut i: usize = 0;
    while i < value.servers.len()
        invariant
            i <= value.servers@.len(),
            issues_view(r@) == mcp_connections_issues(value.servers@.take(i as int), path@),
            views_of(names@) == value.servers@.take(i as int).map_values(|c: McpServerConnection| c.name@),
        decreases value.servers@.len() - i,
    {
        proof {
            assert(value.servers@.take(i + 1).drop_last() =~= value.servers@.take(i as int));
            assert(value.servers@.take(i + 1).last() == value.servers@[i as int]);
        }
        let p = indexed_path(path, ".servers", i);
        append_issues(&mut r, validate_mcp_server_connection(&value.servers[i], p.as_str()));
        let ghost vn = views_of(names@);
        names.push(value.servers[i].name.clone());
        assert(views_of(names@) =~= vn.push(value.servers@[i as int].name@));
        assert(value.servers@.take(i + 1).map_values(|c: McpServerConnection| c.name@) =~=
            value.servers@.take(i as int).map_values(|c: McpServerConnection| c.name@).push(value.servers@[i as int].name@));
        i = i + 1;
    }
    assert(value.servers@.take(value.servers@.len() as int) =~= value.servers@);
    let ghost entries = issues_view(r@);
    if r.len() == 0 {
        append_issues(&mut r, duplicate_name_issues(&names, sub_path(path, ".servers").as_str(),
            "Duplicate MCP server name: \"", false));
    }
    assert(issues_view(r@) =~= mcp_client_issues(*value, path@));
    r
}

/// The semantic version pattern.
pub const SEMVER_PATTERN: &'static str = "^\\d+\\.\\d+\\.\\d+$";

/// The issues of an MCP server configuration.
pub open spec fn mcp_server_issues(v: McpServerConfig, path: Seq<char>) -> Seq<Issue> {
    (if v.enabled && v.name is None { one(path + ".name"@, "MCP server name is required when enabled"@) } else { Seq::empty() })
        + (match v.name {
            Some(n) => non_empty_issues(n@, path + ".name"@, "MCP server name"@),
            None => Seq::empty(),
        })
        + (if v.enabled && v.version is None {
            one(path + ".version"@, "MCP server version is required when enabled"@)
        } else {
            Seq::empty()
        })
        + (match v.version {
            Some(x) => if !regex_is_match(SEMVER_PATTERN@, x@) {
                one(path + ".version"@, "MCP server version must be semver (e.g. 1.0.0)"@)
            } else {
                Seq::empty()
            },
            None => Seq::empty(),
        })
}

/// Validates the MCP server configuration: an enabled server needs a name
/// and a semantic version.
pub fn validate_mcp_server_config(value: &McpServerConfig, path: &str) -> (r: Vec<ValidationIssue>)
    ensures
        issues_view(r@) == mcp_server_issues(*value, path@),
{
    let mut r: Vec<ValidationIssue> = Vec::new();
    if value.enabled && value.name.is_none() {
        push_issue(&mut r, sub_path(path, ".name"), "MCP server name is required when enabled".to_owned());
    }
    let ghost a = issues_view(r@);
    match &value.name {
        Some(n) => append_issues(&mut r, validate_non_empty(n.as_str(), sub_path(path, ".name").as_str(),
            "MCP server name")),
        None => {},
    }
    let ghost b = issues_view(r@);
    if value.enabled && value.version.is_none() {
        push_issue(&mut r, sub_path(path, ".version"), "MCP server version is required when enabled".to_owned());
    }
    let ghost c = issues_view(r@);
    match &value.version {
        Some(x) => {
            if !source_is_match(SEMVER_PATTERN, x.as_str()) {
                push_issue(&mut r, sub_path(path, ".version"), "MCP server version must be semver (e.g. 1.0.0)".to_owned());
            }
        },
        None => {},
    }
    assert(issues_view(r@) =~= mcp_server_issues(*value, path@));
    r
}

/// Validates the MCP configuration: client, then server.
pub fn validate_mcp_config(value: &McpConfig, path: &str) -> (r: Vec<ValidationIssue>)
    ensures
        issues_view(r@) == mcp_client_issues(value.client, path@ + ".client"@)
            + mcp_server_issues(value.server, path@ + ".server"@),
{
    let mut r = validate_mcp_client_config(&value.client, sub_path(path, ".client").as_str());
    append_issues(&mut r, validate_mcp_server_config(&value.server, sub_path(path, ".server").as_str()));
    r
}

// ---------------------------------------------------------------------------
// Library
// ---------------------------------------------------------------------------

/// Where a floating-point setting lies against its allowed range.
#[derive(Debug, Clone, Copy, PartialEq, Eq, Structural)]
pub enum RangeCheck {
    NotANumber,
    BelowMin,
    AboveMax,
    Within,
}

/// The library settings validation reads; the similarity threshold, a
/// floating-point number, is represented by where it lies in `[0, 1]`.
#[derive(Debug, Clone)]
pub struct LibrarySettings {
    pub enabled: bool,
    pub embedding_agent: Option<String>,
    pub similarity_threshold: Option<RangeCheck>,
    pub max_results: Option<u32>,
}

/// The issues of the library settings.
pub open spec fn library_issues(v: LibrarySettings, path: Seq<char>) -> Seq<Issue> {
    (if v.enabled && v.embedding_agent is None {
        one(path + ".embeddingAgent"@, "Embedding agent ID is required when library is enabled"@)
    } else {
        Seq::empty()
    })
        + (match v.embedding_agent {
            Some(a) => non_empty_issues(a@, path + ".embeddingAgent"@, "Embedding agent ID"@),
            None => Seq::empty(),
        })
        + (if v.enabled && v.similarity_threshold is None {
            one(path + ".similarityThreshold"@, "Similarity threshold is required when library is enabled"@)
        } else {
            Seq::empty()
        })
        + (match v.similarity_threshold {
            Some(RangeCheck::NotANumber) => one(path + ".similarityThreshold"@, "Similarity threshold must be a number"@),
            Some(RangeCheck::BelowMin) => one(path + ".similarityThreshold"@, "Similarity threshold must be at least 0"@),
            Some(RangeCheck::AboveMax) => one(path + ".similarityThreshold"@, "Similarity threshold must be at most 1"@),
            _ => Seq::empty(),
        })
        + (if v.enabled && v.max_results is None {
            one(path + ".maxResults"@, "Max results is required when library is enabled"@)
        } else {
            Seq::empty()
        })
        + (match v.max_results {
            Some(m) => range_issues(m as nat, path + ".maxResults"@, "maxResults"@, 1, 100),
            None => Seq::empty(),
        })
}

/// Validates the library settings: an enabled library needs an embedding
/// agent, a similarity threshold in `[0, 1]` and a result limit in
/// `[1, 100]`.
pub fn validate_library_config(value: &LibrarySettings, path: &str) -> (r: Vec<ValidationIssue>)
    ensures
        issues_view(r@) == library_issues(*value, path@),
{
    let mut r: Vec<ValidationIssue> = Vec::new();
    if value.enabled && value.embedding_agent.is_none() {
        push_issue(&mut r, sub_path(path, ".embeddingAgent"),
            "Embedding agent ID is required when library is enabled".to_owned());
    }
    let ghost a = issues_view(r@);
    match &value.embedding_agent {
        Some(x) => append_issues(&mut r, validate_non_empty(x.as_str(), sub_path(path, ".embeddingAgent").as_str(),
            "Embedding agent ID")),
        None => {},
    }
    let ghost b = issues_view(r@);
    if value.enabled && value.similarity_threshold.is_none() {
        push_issue(&mut r, sub_path(path, ".similarityThreshold"),
            "Similarity threshold is required when library is enabled".to_owned());
    }
    let ghost c = issues_view(r@);
    match value.similarity_threshold {
        Some(RangeCheck::NotANumber) => push_issue(&mut r, sub_path(path, ".similarityThreshold"),
            "Similarity threshold must be a number".to_owned()),
        Some(RangeCheck::BelowMin) => push_issue(&mut r, sub_path(path, ".similarityThreshold"),
            "Similarity threshold must be at least 0".to_owned()),
        Some(RangeCheck::AboveMax) => push_issue(&mut r, sub_path(path, ".similarityThreshold"),
            "Similarity threshold must be at most 1".to_owned()),
        _ => {},
    }
    let ghost d = issues_view(r@);
    if value.enabled && value.max_results.is_none() {
        push_issue(&mut r, sub_path(path, ".maxResults"), "Max results is required when library is enabled".to_owned());
    }
    let ghost e = issues_view(r@);
    match value.max_results {
        Some(m) => append_issues(&mut r, validate_int_range(m as u64, sub_path(path, ".maxResults").as_str(),
            "maxResults", 1, 100)),
        None => {},
    }
    assert(issues_view(r@) =~= library_issues(*value, path@));
    r
}

// ---------------------------------------------------------------------------
// Chains
// ---------------------------------------------------------------------------

/// The pattern of step and sub-step names.
pub const STEP_NAME_PATTERN: &'static str = "^[a-zA-Z_][\\w-]*$";

/// An optional name that is missing or empty.
pub open spec fn unset(o: Option<String>) -> bool {
    match o {
        Some(s) => s@.len() == 0,
        None => true,
    }
}

fn is_unset(o: &Option<String>) -> (r: bool)
    ensures
        r == unset(*o),
{
    match o {
        Some(s) => s.as_str().is_empty(),
        None => true,
    }
}

/// The issues of a step or sub-step name: empty, or not matching the
/// name pattern.
pub open spec fn step_name_issues(name: Seq<char>, path: Seq<char>, label: Seq<char>, pattern_message: Seq<char>)
    -> Seq<Issue> {
    let empty = non_empty_issues(name, path + ".name"@, label);
    (if empty.len() == 0 && !regex_is_match(STEP_NAME_PATTERN@, name) {
        one(path + ".name"@, pattern_message)
    } else {
        Seq::empty()
    }) + empty
}

fn validate_step_name(name: &str, path: &str, label: &str, pattern_message: &str) -> (r: Vec<ValidationIssue>)
    ensures
        issues_view(r@) == step_name_issues(name@, path@, label@, pattern_message@),
{
    let empty = validate_non_empty(name, sub_path(path, ".name").as_str(), label);
    let mut r: Vec<ValidationIssue> = Vec::new();
    if empty.len() == 0 && !source_is_match(STEP_NAME_PATTERN, name) {
        push_issue(&mut r, sub_path(path, ".name"), pattern_message.to_owned());
    }
    let ghost a = issues_view(r@);
    assert(a =~= (if issues_view(empty@).len() == 0 && !regex_is_match(STEP_NAME_PATTERN@, name@) {
        one(path@ + ".name"@, pattern_message@)
    } else {
        Seq::empty()
    }));
    append_issues(&mut r, empty);
    r
}

/// The issues of an MCP step without its server or tool name.
pub open spec fn mcp_names_issues(provider: Option<StepProvider>, server: Option<String>, tool: Option<String>,
    path: Seq<char>, what: Seq<char>) -> Seq<Issue> {
    if provider == Some(StepProvider::Mcp) {
        (if unset(server) { one(path + ".mcpServerName"@, what + " requires \"mcpServerName\" to be set"@) } else { Seq::empty() })
            + (if unset(tool) { one(path + ".mcpToolName"@, what + " requires \"mcpToolName\" to be set"@) } else { Seq::empty() })
    } else {
        Seq::empty()
    }
}

fn validate_mcp_names(provider: Option<StepProvider>, server: &Option<String>, tool: &Option<String>, path: &str,
    what: &str) -> (r: Vec<ValidationIssue>)
    ensures
        issues_view(r@) == mcp_names_issues(provider, *server, *tool, path@, what@),
{
    let mut r: Vec<ValidationIssue> = Vec::new();
    if provider == Some(StepProvider::Mcp) {
        if is_unset(server) {
            push_issue(&mut r, sub_path(path, ".mcpServerName"), sub_path(what, " requires \"mcpServerName\" to be set"));
        }
        let ghost a = issues_view(r@);
        if is_unset(tool) {
            push_issue(&mut r, sub_path(path, ".mcpToolName"), sub_path(what, " requires \"mcpToolName\" to be set"));
        }
    }
    assert(issues_view(r@) =~= mcp_names_issues(provider, *server, *tool, path@, what@));
    r
}

/// The issues of a parallel sub-step.
pub open spec fn sub_step_issues(v: ParallelSubStepDefinition, path: Seq<char>) -> Seq<Issue> {
    step_name_issues(v.name@, path, "Sub-step name"@,
        "Sub-step name must start with a letter or underscore and contain only word characters or hyphens"@)
        + non_empty_issues(v.template@, path + ".template"@, "Sub-step template"@)
        + mcp_names_issues(v.provider, v.mcp_server_name, v.mcp_tool_name, path, "MCP sub-step"@)
}

/// Validates a parallel sub-step: its name, its template, and the server
/// and tool of an MCP sub-step.
pub fn validate_parallel_sub_step(value: &ParallelSubStepDefinition, path: &str) -> (r: Vec<ValidationIssue>)
    ensures
        issues_view(r@) == sub_step_issues(*value, path@),
{
    let mut r = validate_step_name(value.name.as_str(), path, "Sub-step name",
        "Sub-step name must start with a letter or underscore and contain only word characters or hyphens");
    append_issues(&mut r, validate_non_empty(value.template.as_str(), sub_path(path, ".template").as_str(),
        "Sub-step template"));
    append_issues(&mut r, validate_mcp_names(value.provider, &value.mcp_server_name, &value.mcp_tool_name, path,
        "MCP sub-step"));
    r
}

/// The issues of the sub-steps, each at `{path}.subSteps[i]`, in order.
pub open spec fn sub_steps_issues(subs: Seq<ParallelSubStepDefinition>, path: Seq<char>) -> Seq<Issue>
    decreases subs.len(),
{
    if subs.len() == 0 {
        Seq::empty()
    } else {
        sub_steps_issues(subs.drop_last(), path) + sub_step_issues(subs.last(),
            path + ".subSteps"@ + "["@ + decimal((subs.len() - 1) as nat) + "]"@)
    }
}

/// The issues of a parallel configuration.
pub open spec fn parallel_issues(v: ParallelConfigDefinition, path: Seq<char>) -> Seq<Issue> {
    let first = (if v.sub_steps@.len() < 2 {
        one(path + ".subSteps"@, "Parallel config must have at least 2 sub-steps"@)
    } else {
        Seq::empty()
    }) + sub_steps_issues(v.sub_steps@, path);
    first + if first.len() == 0 {
        duplicate_issues(v.sub_steps@.map_values(|x: ParallelSubStepDefinition| x.name@), path + ".subSteps"@,
            "Duplicate sub-step name: \""@, true)
    } else {
        Seq::empty()
    }
}

/// Validates a parallel configuration: at least 2 sub-steps, each valid,
/// and no non-empty name twice (checked when nothing else is wrong).
pub fn validate_parallel_config(value: &ParallelConfigDefinition, path: &str) -> (r: Vec<ValidationIssue>)
    ensures
        issues_view(r@) == parallel_issues(*value, path@),
{
    let mut r: Vec<ValidationIssue> = Vec::new();
    if value.sub_steps.len() < 2 {
        push_issue(&mut r, sub_path(path, ".subSteps"), "Parallel config must have at least 2 sub-steps".to_owned());
    }
    let ghost head = issues_view(r@);
    let mut names: Vec<String> = Vec::new();
    let mut i: usize = 0;
    while i < value.sub_steps.len()
        invariant
            i <= value.sub_steps@.len(),
            issues_view(r@) == head + sub_steps_issues(value.sub_steps@.take(i as int), path@),
            views_of(names@) == value.sub_steps@.take(i as int).map_values(|x: ParallelSubStepDefinition| x.name@),
        decreases value.sub_steps@.len() - i,
    {
        proof {
            assert(value.sub_steps@.take(i + 1).drop_last() =~= value.sub_steps@.take(i as int));
            assert(value.sub_steps@.take(i + 1).last() == value.sub_steps@[i as int]);
        }
        let p = indexed_path(path, ".subSteps", i);
        append_issues(&mut r, validate_parallel_sub_step(&value.sub_steps[i], p.as_str()));
        let ghost vn = views_of(names@);
        names.push(value.sub_steps[i].name.clone());
        assert(views_of(names@) =~= vn.push(value.sub_steps@[i as int].name@));
        assert(value.sub_steps@.take(i + 1).map_values(|x: ParallelSubStepDefinition| x.name@) =~=
            value.sub_steps@.take(i as int).map_values(|x: ParallelSubStepDefinition| x.name@).push(
                value.sub_steps@[i as int].name@));
        i = i + 1;
    }
    assert(value.sub_steps@.take(value.sub_steps@.len() as int) =~= value.sub_steps@);
    if r.len() == 0 {
        append_issues(&mut r, duplicate_name_issues(&names, sub_path(path, ".subSteps").as_str(),
            "Duplicate sub-step name: \"", true));
    }
    assert(issues_view(r@) =~= parallel_issues(*value, path@));
    r
}

/// The issues of a chain step.
pub open spec fn chain_step_issues(v: ChainStepDefinition, path: Seq<char>) -> Seq<Issue> {
    step_name_issues(v.name@, path, "Chain step name"@,
        "Step name must start with a letter or underscore and contain only word characters or hyphens"@)
        + non_empty_issues(v.template@, path + ".template"@, "Chain step template"@)
        + mcp_names_issues(v.provider, v.mcp_server_name, v.mcp_tool_name, path, "MCP step"@)
        + match v.parallel {
            Some(p) => parallel_issues(p, path + ".parallel"@),
            None => Seq::empty(),
        }
}

/// Validates a chain step: its name, its template, the server and tool of
/// an MCP step, and its parallel configuration.
pub fn validate_chain_step_definition(value: &ChainStepDefinition, path: &str) -> (r: Vec<ValidationIssue>)
    ensures
        issues_view(r@) == chain_step_issues(*value, path@),
{
    let mut r = validate_step_name(value.name.as_str(), path, "Chain step name",
        "Step name must start with a letter or underscore and contain only word characters or hyphens");
    append_issues(&mut r, validate_non_empty(value.template.as_str(), sub_path(path, ".template").as_str(),
        "Chain step template"));
    append_issues(&mut r, validate_mcp_names(value.provider, &value.mcp_server_name, &value.mcp_tool_name, path,
        "MCP step"));
    let ghost a = issues_view(r@);
    match &value.parallel {
        Some(p) => append_issues(&mut r, validate_parallel_config(p, sub_path(path, ".parallel").as_str())),
        None => {},
    }
    assert(issues_view(r@) =~= chain_step_issues(*value, path@));
    r
}

/// The issues of the steps, each at `{path}.steps[i]`, in order.
pub open spec fn steps_issues(steps: Seq<ChainStepDefinition>, path: Seq<char>) -> Seq<Issue>
    decreases steps.len(),
{
    if steps.len() == 0 {
        Seq::empty()
    } else {
        steps_issues(steps.drop_last(), path) + chain_step_issues(steps.last(),
            path + ".steps"@ + "["@ + decimal((steps.len() - 1) as nat) + "]"@)
    }
}

/// The issues of a chain definition.
pub open spec fn chain_issues(v: ChainDefinition, path: Seq<char>) -> Seq<Issue> {
    if v.steps@.len() == 0 {
        one(path + ".steps"@, "A chain must have at least one step"@)
    } else {
        let entries = steps_issues(v.steps@, path);
        entries + if entries.len() == 0 {
            duplicate_issues(v.steps@.map_values(|x: ChainStepDefinition| x.name@), path + ".steps"@,
                "Duplicate step name: \""@, true)
        } else {
            Seq::empty()
        }
    }
}

/// Validates a chain definition: at least one step, each valid, and no
/// non-empty step name twice (checked once every step is valid).
pub fn validate_chain_definition(value: &ChainDefinition, path: &str) -> (r: Vec<ValidationIssue>)
    ensures
        issues_view(r@) == chain_issues(*value, path@),
{
    let mut r: Vec<ValidationIssue> = Vec::new();
    if value.steps.len() == 0 {
        push_issue(&mut r, sub_path(path, ".steps"), "A chain must have at least one step".to_owned());
        assert(issues_view(r@) =~= chain_issues(*value, path@));
        return r;
    }
    let mut names: Vec<String> = Vec::new();
    let mut i: usize = 0;
    while i < value.steps.len()
        invariant
            i <= value.steps@.len(),
            issues_view(r@) == steps_issues(value.steps@.take(i as int), path@),
            views_of(names@) == value.steps@.take(i as int).map_values(|x: ChainStepDefinition| x.name@),
        decreases value.steps@.len() - i,
    {
        proof {
            assert(value.steps@.take(i + 1).drop_last() =~= value.steps@.take(i as int));
            assert(value.steps@.take(i + 1).last() == value.steps@[i as int]);
        }
        let p = indexed_path(path, ".steps", i);
        append_issues(&mut r, validate_chain_step_definition(&value.steps[i], p.as_str()));
        let ghost vn = views_of(names@);
        names.push(value.steps[i].name.clone());
        assert(views_of(names@) =~= vn.push(value.steps@[i as int].name@));
        assert(value.steps@.take(i + 1).map_values(|x: ChainStepDefinition| x.name@) =~=
            value.steps@.take(i as int).map_values(|x: ChainStepDefinition| x.name@).push(value.steps@[i as int].name@));
        i = i + 1;
    }
    assert(value.steps@.take(value.steps@.len() as int) =~= value.steps@);
    if r.len() == 0 {
        append_issues(&mut r, duplicate_name_issues(&names, sub_path(path, ".steps").as_str(), "Duplicate step name: \"",
            true));
    }
    assert(issues_view(r@) =~= chain_issues(*value, path@));
    r
}

// ---------------------------------------------------------------------------
// The whole configuration
// ---------------------------------------------------------------------------

/// The application configuration as validation reads it; chains are kept
/// in the order they were read, with their names.
#[derive(Debug, Clone)]
pub struct AppConfig {
    pub acp: AcpConfig,
    pub mcp: McpConfig,
    pub library: LibrarySettings,
    pub tools: ToolsConfig,
    pub loop_config: LoopConfig,
    pub prompts: PromptsConfig,
    pub chains: Vec<(String, ChainDefinition)>,
}

/// The library settings are checked when the library is enabled or any of
/// them is set.
pub open spec fn library_checked(l: LibrarySettings) -> bool {
    l.enabled || l.embedding_agent is Some || l.similarity_threshold is Some || l.max_results is Some
}

/// The issues of the chains, each at `chains.{name}`, in order.
pub open spec fn chains_issues(chains: Seq<(String, ChainDefinition)>) -> Seq<Issue>
    decreases chains.len(),
{
    if chains.len() == 0 {
        Seq::empty()
    } else {
        chains_issues(chains.drop_last()) + chain_issues(chains.last().1, "chains."@ + chains.last().0@)
    }
}

/// The issues of a whole configuration.
pub open spec fn app_issues(v: AppConfig) -> Seq<Issue> {
    acp_config_issues(v.acp, "acp"@)
        + (mcp_client_issues(v.mcp.client, "mcp"@ + ".client"@) + mcp_server_issues(v.mcp.server, "mcp"@ + ".server"@))
        + (if library_checked(v.library) { library_issues(v.library, "library"@) } else { Seq::empty() })
        + chains_issues(v.chains@)
}

/// Validates a whole configuration: ACP, MCP, the library settings when
/// used, and every chain.
pub fn validate_app_config(value: &AppConfig) -> (r: Vec<ValidationIssue>)
    ensures
        issues_view(r@) == app_issues(*value),
{
    let mut r = validate_acp_config(&value.acp, "acp");
    append_issues(&mut r, validate_mcp_config(&value.mcp, "mcp"));
    let ghost a = issues_view(r@);
    let l = &value.library;
    if l.enabled || l.embedding_agent.is_some() || l.similarity_threshold.is_some() || l.max_results.is_some() {
        append_issues(&mut r, validate_library_config(l, "library"));
    }
    let ghost b = issues_view(r@);
    assert(b =~= a + (if library_checked(value.library) { library_issues(value.library, "library"@) } else {
        Seq::empty()
    }));
    let mut i: usize = 0;
    while i < value.chains.len()
        invariant
            i <= value.chains@.len(),
            issues_view(r@) == b + chains_issues(value.chains@.take(i as int)),
        decreases value.chains@.len() - i,
    {
        proof {
            assert(value.chains@.take(i + 1).drop_last() =~= value.chains@.take(i as int));
            assert(value.chains@.take(i + 1).last() == value.chains@[i as int]);
        }
        let p = sub_path("chains.", value.chains[i].0.as_str());
        let ghost before = issues_view(r@);
        append_issues(&mut r, validate_chain_definition(&value.chains[i].1, p.as_str()));
        assert(issues_view(r@) =~= b + chains_issues(value.chains@.take(i + 1)));
        i = i + 1;
    }
    assert(value.chains@.take(value.chains@.len() as int) =~= value.chains@);
    r
}

// ---------------------------------------------------------------------------
// Resolution
// ---------------------------------------------------------------------------

/// An own setting, or the inherited one when there is none.
pub open spec fn inherited(own: Option<String>, parent: Option<String>) -> Option<String> {
    if own is Some {
        own
    } else {
        parent
    }
}

fn copy_opt(o: &Option<String>) -> (r: Option<String>)
    ensures
        r == *o,
{
    match o {
        Some(s) => Some(s.clone()),
        None => None,
    }
}

fn inherit(own: Option<String>, parent: &Option<String>) -> (r: Option<String>)
    ensures
        r == inherited(own, *parent),
{
    match own {
        Some(x) => Some(x),
        None => copy_opt(parent),
    }
}

/// A sub-step that inherits its step's agent and server when it has none.
pub open spec fn resolved_sub(sub: ParallelSubStepDefinition, agent: Option<String>, server: Option<String>)
    -> ParallelSubStepDefinition {
    ParallelSubStepDefinition {
        agent_id: inherited(sub.agent_id, agent),
        server_name: inherited(sub.server_name, server),
        ..sub
    }
}

fn resolve_parallel(p: ParallelConfigDefinition, agent: &Option<String>, server: &Option<String>)
    -> (r: ParallelConfigDefinition)
    ensures
        (ParallelConfigDefinition { sub_steps: p.sub_steps, ..r }) == p,
        r.sub_steps@.len() == p.sub_steps@.len(),
        forall|k: int| 0 <= k < r.sub_steps@.len() ==> #[trigger] r.sub_steps@[k] == resolved_sub(p.sub_steps@[k],
            *agent, *server),
{
    let ghost all = p.sub_steps@;
    let mut rest = p.sub_steps;
    let mut out: Vec<ParallelSubStepDefinition> = Vec::new();
    let n = rest.len();
    let mut k: usize = 0;
    while k < n
        invariant
            n == all.len(),
            k <= n,
            rest@ == all.skip(k as int),
            out@.len() == k,
            forall|j: int| 0 <= j < k ==> #[trigger] out@[j] == resolved_sub(all[j], *agent, *server),
        decreases n - k,
    {
        let sub = rest.remove(0);
        assert(sub == all[k as int]);
        assert(all.skip(k + 1) =~= all.skip(k as int).drop_first());
        let agent_id = inherit(sub.agent_id, agent);
        let server_name = inherit(sub.server_name, server);
        out.push(ParallelSubStepDefinition { agent_id, server_name, ..sub });
        k = k + 1;
    }
    ParallelConfigDefinition { sub_steps: out, ..p }
}

/// `r` is `step` after inheriting the chain's agent and server (and passing
/// its own on to its sub-steps).
pub open spec fn step_resolved(r: ChainStepDefinition, step: ChainStepDefinition, agent: Option<String>,
    server: Option<String>) -> bool {
    let a = inherited(step.agent_id, agent);
    let s = inherited(step.server_name, server);
    &&& (ChainStepDefinition { parallel: None, ..r }) == (ChainStepDefinition {
        agent_id: a,
        server_name: s,
        parallel: None,
        ..step
    })
    &&& match (step.parallel, r.parallel) {
        (Some(p), Some(q)) => {
            &&& (ParallelConfigDefinition { sub_steps: p.sub_steps, ..q }) == p
            &&& q.sub_steps@.len() == p.sub_steps@.len()
            &&& forall|k: int| 0 <= k < q.sub_steps@.len() ==> #[trigger] q.sub_steps@[k] == resolved_sub(
                p.sub_steps@[k], a, s)
        },
        (None, None) => true,
        _ => false,
    }
}

/// Resolves a chain step: it inherits the chain's agent and server when it
/// has none, and its sub-steps inherit the step's.
pub fn resolve_chain_step(step: ChainStepDefinition, agent: &Option<String>, server: &Option<String>)
    -> (r: ChainStepDefinition)
    ensures
        step_resolved(r, step, *agent, *server),
{
    let ghost old_step = step;
    let agent_id = inherit(step.agent_id, agent);
    let server_name = inherit(step.server_name, server);
    let parallel = match step.parallel {
        Some(p) => Some(resolve_parallel(p, &agent_id, &server_name)),
        None => None,
    };
    ChainStepDefinition { agent_id, server_name, parallel, ..step }
}

/// `r` is the chain after resolving every step.
pub open spec fn chain_resolved(r: ChainDefinition, c: ChainDefinition) -> bool {
    &&& (ChainDefinition { steps: c.steps, ..r }) == c
    &&& r.steps@.len() == c.steps@.len()
    &&& forall|k: int| 0 <= k < r.steps@.len() ==> step_resolved(#[trigger] r.steps@[k], c.steps@[k], c.agent_id,
        c.server_name)
}

/// Resolves every step of a chain against the chain's agent and server.
pub fn resolve_chain_definition(chain: ChainDefinition) -> (r: ChainDefinition)
    ensures
        chain_resolved(r, chain),
{
    let ghost all = chain.steps@;
    let agent = copy_opt(&chain.agent_id);
    let server = copy_opt(&chain.server_name);
    let mut rest = chain.steps;
    let mut out: Vec<ChainStepDefinition> = Vec::new();
    let n = rest.len();
    let mut k: usize = 0;
    while k < n
        invariant
            n == all.len(),
            k <= n,
            rest@ == all.skip(k as int),
            out@.len() == k,
            agent == chain.agent_id,
            server == chain.server_name,
            forall|j: int| 0 <= j < k ==> step_resolved(#[trigger] out@[j], all[j], agent, server),
        decreases n - k,
    {
        let step = rest.remove(0);
        assert(step == all[k as int]);
        assert(all.skip(k + 1) =~= all.skip(k as int).drop_first());
        out.push(resolve_chain_step(step, &agent, &server));
        k = k + 1;
    }
    ChainDefinition { steps: out, ..chain }
}

/// The default timeout of an ACP server without one.
pub open spec fn server_resolved(r: AcpServerEntry, s: AcpServerEntry) -> bool {
    r == AcpServerEntry { timeout_ms: Some(if s.timeout_ms is Some { s.timeout_ms->0 } else { 30000 }), ..s }
}

// ---------------------------------------------------------------------------
// define_config
// ---------------------------------------------------------------------------

/// An issue as a line: `path: message`.
pub open spec fn issue_text(i: Issue) -> Seq<char> {
    i.0 + ": "@ + i.1
}

/// Some issue is at `path`.
pub open spec fn has_path(issues: Seq<Issue>, path: Seq<char>) -> bool {
    exists|k: int| 0 <= k < issues.len() && #[trigger] issues[k].0 == path
}

fn has_issue_path(issues: &Vec<ValidationIssue>, path: &str) -> (r: bool)
    ensures
        r == has_path(issues_view(issues@), path@),
{
    let mut k: usize = 0;
    while k < issues.len()
        invariant
            k <= issues@.len(),
            forall|j: int| 0 <= j < k ==> issues@[j].path@ != path@,
        decreases issues@.len() - k,
    {
        if str_eq(issues[k].path.as_str(), path) {
            assert(issues_view(issues@)[k as int].0 == path@);
            return true;
        }
        k = k + 1;
    }
    assert(!has_path(issues_view(issues@), path@)) by {
        if has_path(issues_view(issues@), path@) {
            let j = choose|j: int| 0 <= j < issues_view(issues@).len() && #[trigger] issues_view(issues@)[j].0 == path@;
            assert(issues@[j].path@ == path@);
        }
    }
    false
}

/// The library settings with every setting that has an issue reset.
pub open spec fn reset_library(l: LibrarySettings, issues: Seq<Issue>) -> LibrarySettings {
    LibrarySettings {
        enabled: if has_path(issues, "library.enabled"@) { false } else { l.enabled },
        embedding_agent: if has_path(issues, "library.embeddingAgent"@) { None } else { l.embedding_agent },
        similarity_threshold: if has_path(issues, "library.similarityThreshold"@) { None } else { l.similarity_threshold },
        max_results: if has_path(issues, "library.maxResults"@) { None } else { l.max_results },
    }
}

/// The MCP server settings with every setting that has an issue reset.
pub open spec fn reset_mcp_server(m: McpServerConfig, issues: Seq<Issue>) -> McpServerConfig {
    McpServerConfig {
        enabled: if has_path(issues, "mcp.server.enabled"@) { false } else { m.enabled },
        name: if has_path(issues, "mcp.server.name"@) { None } else { m.name },
        version: if has_path(issues, "mcp.server.version"@) { None } else { m.version },
        ..m
    }
}

/// `r` is the accepted configuration `c` after lenient resets for `issues`
/// and resolution: servers get the default timeout, chains inherit agents
/// and servers.
pub open spec fn config_defined(r: AppConfig, c: AppConfig, issues: Seq<Issue>) -> bool {
    &&& (AcpConfig { servers: c.acp.servers, ..r.acp }) == c.acp
    &&& r.acp.servers@.len() == c.acp.servers@.len()
    &&& forall|k: int| 0 <= k < r.acp.servers@.len() ==> server_resolved(#[trigger] r.acp.servers@[k], c.acp.servers@[k])
    &&& r.mcp == (McpConfig { server: reset_mcp_server(c.mcp.server, issues), ..c.mcp })
    &&& r.library == reset_library(c.library, issues)
    &&& r.tools == c.tools
    &&& r.loop_config == c.loop_config
    &&& r.prompts == c.prompts
    &&& r.chains@.len() == c.chains@.len()
    &&& forall|k: int| 0 <= k < r.chains@.len() ==> (#[trigger] r.chains@[k]).0 == c.chains@[k].0
        && chain_resolved(r.chains@[k].1, c.chains@[k].1)
}

fn apply_lenient_resets(cfg: &mut AppConfig, issues: &Vec<ValidationIssue>)
    ensures
        final(cfg).library == reset_library(old(cfg).library, issues_view(issues@)),
        final(cfg).mcp == (McpConfig { server: reset_mcp_server(old(cfg).mcp.server, issues_view(issues@)), ..old(cfg).mcp }),
        final(cfg).acp == old(cfg).acp,
        final(cfg).tools == old(cfg).tools,
        final(cfg).loop_config == old(cfg).loop_config,
        final(cfg).prompts == old(cfg).prompts,
        final(cfg).chains == old(cfg).chains,
{
    if has_issue_path(issues, "library.similarityThreshold") {
        cfg.library.similarity_threshold = None;
    }
    if has_issue_path(issues, "library.maxResults") {
        cfg.library.max_results = None;
    }
    if has_issue_path(issues, "library.embeddingAgent") {
        cfg.library.embedding_agent = None;
    }
    if has_issue_path(issues, "library.enabled") {
        cfg.library.enabled = false;
    }
    if has_issue_path(issues, "mcp.server.enabled") {
        cfg.mcp.server.enabled = false;
    }
    if has_issue_path(issues, "mcp.server.name") {
        cfg.mcp.server.name = None;
    }
    if has_issue_path(issues, "mcp.server.version") {
        cfg.mcp.server.version = None;
    }
}

fn validation_failure(issues: &Vec<ValidationIssue>) -> (r: SimseError)
    ensures
        r matches SimseError::Config { code: ConfigErrorCode::ValidationFailed, .. },
        r.message_text() == Some("Config validation failed: "@ + join_seqs(issues_view(issues@).map_values(
            |i: Issue| issue_text(i)), "; "@)),
{
    let mut lines: Vec<String> = Vec::new();
    let mut k: usize = 0;
    while k < issues.len()
        invariant
            k <= issues@.len(),
            lines@.len() == k,
            forall|j: int| 0 <= j < k ==> (#[trigger] lines@[j])@ == issue_text(issues_view(issues@)[j]),
        decreases issues@.len() - k,
    {
        let mut l = sub_path(issues[k].path.as_str(), ": ");
        l.append(issues[k].message.as_str());
        lines.push(l);
        k = k + 1;
    }
    assert(views_of(lines@) =~= issues_view(issues@).map_values(|i: Issue| issue_text(i)));
    let mut m = String::new();
    m.append("Config validation failed: ");
    let joined = crate::text::join_strings(lines.as_slice(), "; ");
    m.append(joined.as_str());
    SimseError::config(ConfigErrorCode::ValidationFailed, m.as_str())
}

fn resolve_servers(servers: Vec<AcpServerEntry>) -> (r: Vec<AcpServerEntry>)
    ensures
        r@.len() == servers@.len(),
        forall|j: int| 0 <= j < r@.len() ==> server_resolved(#[trigger] r@[j], servers@[j]),
{
    let ghost all_servers = servers@;
    let mut rest = servers;
    let mut resolved: Vec<AcpServerEntry> = Vec::new();
    let n = rest.len();
    let mut k: usize = 0;
    while k < n
        invariant
            n == all_servers.len(),
            k <= n,
            rest@ == all_servers.skip(k as int),
            resolved@.len() == k,
            forall|j: int| 0 <= j < k ==> server_resolved(#[trigger] resolved@[j], all_servers[j]),
        decreases n - k,
    {
        let server = rest.remove(0);
        assert(server == all_servers[k as int]);
        assert(all_servers.skip(k + 1) =~= all_servers.skip(k as int).drop_first());
        let timeout_ms = match server.timeout_ms {
            Some(t) => Some(t),
            None => Some(30000u64),
        };
        resolved.push(AcpServerEntry { timeout_ms, ..server });
        k = k + 1;
    }
    resolved
}

fn resolve_chains(chains: Vec<(String, ChainDefinition)>) -> (r: Vec<(String, ChainDefinition)>)
    ensures
        r@.len() == chains@.len(),
        forall|j: int| 0 <= j < r@.len() ==> (#[trigger] r@[j]).0 == chains@[j].0
            && chain_resolved(r@[j].1, chains@[j].1),
{
    let ghost all_chains = chains@;
    let mut crest = chains;
    let mut rchains: Vec<(String, ChainDefinition)> = Vec::new();
    let m = crest.len();
    let mut c: usize = 0;
    while c < m
        invariant
            m == all_chains.len(),
            c <= m,
            crest@ == all_chains.skip(c as int),
            rchains@.len() == c,
            forall|j: int| 0 <= j < c ==> (#[trigger] rchains@[j]).0 == all_chains[j].0
                && chain_resolved(rchains@[j].1, all_chains[j].1),
        decreases m - c,
    {
        let (name, def) = crest.remove(0);
        assert((name, def) == all_chains[c as int]);
        assert(all_chains.skip(c + 1) =~= all_chains.skip(c as int).drop_first());
        rchains.push((name, resolve_chain_definition(def)));
        c = c + 1;
    }
    rchains
}

/// Accepts a parsed configuration. Its issues make it an error, unless
/// `lenient`: then the settings with issues are reset and the issues are
/// returned as warnings. A configuration without ACP servers is an error
/// in any case. An accepted configuration is resolved.
pub fn define_config(config: AppConfig, lenient: bool) -> (r: Result<(AppConfig, Vec<ValidationIssue>), SimseError>)
    ensures
        ({
            let issues = app_issues(config);
            &&& !lenient && issues.len() > 0 ==> (r matches Err(e) && e matches SimseError::Config {
                code: ConfigErrorCode::ValidationFailed, .. } && e.message_text() == Some("Config validation failed: "@
                + join_seqs(issues.map_values(|i: Issue| issue_text(i)), "; "@)))
            &&& (lenient || issues.len() == 0) && config.acp.servers@.len() == 0 ==> (r matches Err(e)
                && e matches SimseError::Config { code: ConfigErrorCode::ValidationFailed, .. }
                && e.message_text() == Some("ACP servers are required and must be a non-empty array"@))
            &&& r is Ok <==> ((lenient || issues.len() == 0) && config.acp.servers@.len() > 0)
            &&& r matches Ok(p) ==> issues_view(p.1@) == issues && config_defined(p.0, config, issues)
        }),
{
    let issues = validate_app_config(&config);
    let mut cfg = config;
    if issues.len() > 0 && !lenient {
        return Err(validation_failure(&issues));
    }
    apply_lenient_resets(&mut cfg, &issues);
    if cfg.acp.servers.len() == 0 {
        return Err(SimseError::config(ConfigErrorCode::ValidationFailed,
            "ACP servers are required and must be a non-empty array"));
    }
    let AppConfig { acp, mcp, library, tools, loop_config, prompts, chains } = cfg;
    let AcpConfig { servers, default_server, default_agent } = acp;
    let out = AppConfig {
        acp: AcpConfig { servers: resolve_servers(servers), default_server, default_agent },
        mcp,
        library,
        tools,
        loop_config,
        prompts,
        chains: resolve_chains(chains),
    };
    Ok((out, issues))
}

} // verus!
