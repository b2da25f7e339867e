//! The tunnel client's settings: local port, relay port and optional custom
//! domain, with the rule for combining loaded settings with command-line
//! overrides. Reading and writing the settings file is I/O and lives
//! outside; this module owns the values and the override rule.

use vstd::prelude::*;
use crate::msg::{clone_domain, opt_text};

verus! {

/// Local port assumed when none is given.
pub const DEFAULT_LOCAL_PORT: u16 = 8080;

/// Relay port assumed when none is given.
pub const DEFAULT_RELAY_PORT: u16 = 8000;

/// Persisted settings of the tunnel client.
#[derive(Debug, Clone)]
pub struct Config {
    /// The local service to expose.
    pub port: u16,
    /// The relay's control port.
    pub server_port: u16,
    /// Custom hostname to register with, if any.
    pub domain: Option<String>,
}

impl Default for Config {
    /// The out-of-the-box settings.
    fn default() -> (r: Config)
        ensures
            r.port == DEFAULT_LOCAL_PORT,
            r.server_port == DEFAULT_RELAY_PORT,
            r.domain is None,
    {
        Config { port: DEFAULT_LOCAL_PORT, server_port: DEFAULT_RELAY_PORT, domain: None }
    }
}

impl Config {
    /// Combines loaded settings with command-line values: a command-line
    /// value that differs from the default wins; a given domain always
    /// wins.
    pub fn merged(cli_port: u16, cli_domain: Option<String>, cli_server_port: u16, loaded: Config) -> (r: Config)
        ensures
            r.port == if cli_port != DEFAULT_LOCAL_PORT {
                cli_port
            } else {
                loaded.port
            },
            r.server_port == if cli_server_port != DEFAULT_RELAY_PORT {
                cli_server_port
            } else {
                loaded.server_port
            },
            opt_text(r.domain) == if cli_domain is Some {
                opt_text(cli_domain)
            } else {
                opt_text(loaded.domain)
            },
    {
        let port = if cli_port != DEFAULT_LOCAL_PORT {
            cli_port
        } else {
            loaded.port
        };
        let server_port = if cli_server_port != DEFAULT_RELAY_PORT {
            cli_server_port
        } else {
            loaded.server_port
        };
        let domain = match cli_domain {
            Some(d) => Some(d),
            None => loaded.domain,
        };
        Config { port, server_port, domain }
    }

    /// Copies the settings, for handing one snapshot to the saver while the
    /// application keeps its own.
    pub fn duplicate(&self) -> (r: Config)
        ensures
            r.port == self.port,
            r.server_port == self.server_port,
            opt_text(r.domain) == opt_text(self.domain),
    {
        Config {
            port: self.port,
            server_port: self.server_port,
            domain: clone_domain(&self.domain),
        }
    }
}

} // verus!
