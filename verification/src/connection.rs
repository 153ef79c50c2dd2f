//! Configuration of an ACP agent subprocess connection.

use vstd::prelude::*;
use std::collections::HashMap;

verus! {

/// How to start and talk to an ACP agent subprocess.
#[derive(Debug, Clone)]
pub struct ConnectionConfig {
    pub command: String,
    pub args: Vec<String>,
    pub cwd: Option<String>,
    pub env: HashMap<String, String>,
    pub timeout_ms: u64,
    pub init_timeout_ms: u64,
    pub client_name: String,
    pub client_version: String,
}

impl Default for ConnectionConfig {
    fn default() -> (r: Self)
        ensures
            r.command@ == Seq::<char>::empty(),
            r.args@.len() == 0,
            r.cwd is None,
            r.env@ == Map::<String, String>::empty(),
            r.timeout_ms == 60_000,
            r.init_timeout_ms == 30_000,
            r.client_name@ == "simse"@,
            r.client_version@ == "1.0.0"@,
    {
        ConnectionConfig {
            command: String::new(),
            args: Vec::new(),
            cwd: None,
            env: HashMap::new(),
            timeout_ms: 60_000,
            init_timeout_ms: 30_000,
            client_name: "simse".to_owned(),
            client_version: "1.0.0".to_owned(),
        }
    }
}

} // verus!
