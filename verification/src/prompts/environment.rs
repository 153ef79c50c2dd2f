//! Environment context for system prompts.

use vstd::prelude::*;
use crate::text::{join_seqs, join_strings, str_eq, views_of};

verus! {

/// Runtime environment context for system prompt construction.
#[derive(Debug, Clone)]
pub struct EnvironmentInfo {
    /// Operating system platform (e.g., "linux", "darwin", "win32").
    pub platform: String,
    /// Shell being used (e.g., "bash", "zsh", "powershell").
    pub shell: String,
    /// Current working directory.
    pub cwd: String,
    /// Current date in ISO format (YYYY-MM-DD).
    pub date: String,
    /// Current git branch, if in a git repository.
    pub git_branch: Option<String>,
    /// Git status: "clean" or porcelain output.
    pub git_status: Option<String>,
}

/// The lines of the environment section.
pub open spec fn environment_lines(info: EnvironmentInfo) -> Seq<Seq<char>> {
    let base = seq![
        "# Environment"@,
        "- Platform: "@ + info.platform@,
        "- Shell: "@ + info.shell@,
        "- Working directory: "@ + info.cwd@,
        "- Date: "@ + info.date@,
    ];
    let with_branch = match info.git_branch {
        Some(b) => base.push("- Git branch: "@ + b@),
        None => base,
    };
    match info.git_status {
        Some(s) => if s@ == "clean"@ {
            with_branch.push("- Git status: clean"@)
        } else {
            with_branch.push("- Git status:\n"@ + s@)
        },
        None => with_branch,
    }
}

/// The environment section: a `# Environment` header and one bullet per
/// field, lines separated by newlines.
pub open spec fn format_environment_spec(info: EnvironmentInfo) -> Seq<char> {
    join_seqs(environment_lines(info), "\n"@)
}

fn labelled(label: &str, value: &str) -> (r: String)
    ensures
        r@ == label@ + value@,
{
    let mut s = String::new();
    s.append(label);
    s.append(value);
    s
}

/// Format environment info as a markdown section for system prompts.
/// Optional git fields are omitted when unset; a `clean` git status is
/// rendered inline, any other status as a block.
pub fn format_environment(info: &EnvironmentInfo) -> (r: String)
    ensures
        r@ == format_environment_spec(*info),
{
    let mut lines: Vec<String> = Vec::new();
    lines.push("# Environment".to_owned());
    lines.push(labelled("- Platform: ", info.platform.as_str()));
    lines.push(labelled("- Shell: ", info.shell.as_str()));
    lines.push(labelled("- Working directory: ", info.cwd.as_str()));
    lines.push(labelled("- Date: ", info.date.as_str()));
    match &info.git_branch {
        Some(branch) => lines.push(labelled("- Git branch: ", branch.as_str())),
        None => {},
    }
    match &info.git_status {
        Some(status) => {
            if str_eq(status.as_str(), "clean") {
                lines.push("- Git status: clean".to_owned());
            } else {
                lines.push(labelled("- Git status:\n", status.as_str()));
            }
        },
        None => {},
    }
    assert(views_of(lines@) =~= environment_lines(*info));
    join_strings(lines.as_slice(), "\n")
}

} // verus!
