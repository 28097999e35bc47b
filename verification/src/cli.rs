//! Server configuration values.
//!
//! Argument parsing itself is transport plumbing and lives outside this
//! crate; these are the parsed values a front-end hands over.

use crate::text::dec_str;
use crate::text::usize_to_string;
use vstd::prelude::*;
use vstd::string::StringExecFns;

verus! {

/// Which front-end to run.
#[derive(Clone, Copy, Debug, PartialEq, Eq, Structural)]
pub enum ServerMode {
    /// Tool-call mode over the standard streams.
    Mcp,
    /// HTTP REST mode.
    Http,
}

impl Default for ServerMode {
    /// The tool-call mode is the default.
    fn default() -> (r: Self)
        ensures
            r == ServerMode::Mcp,
    {
        ServerMode::Mcp
    }
}

/// Parsed server configuration.
#[derive(Clone, Debug)]
pub struct Args {
    /// Which front-end to run.
    pub mode: ServerMode,
    /// HTTP host address.
    pub host: String,
    /// HTTP port.
    pub port: u16,
    /// Verbose logging.
    pub verbose: bool,
}

impl Args {
    /// The socket address for HTTP mode: host, a colon, and the port in
    /// decimal.
    pub fn socket_addr(&self) -> (r: String)
        ensures
            r@ == self.host@ + ":"@ + dec_str(self.port as int),
    {
        proof {
            reveal_strlit(":");
        }
        self.host.clone().concat(":").concat(usize_to_string(self.port as usize).as_str())
    }
}

} // verus!
