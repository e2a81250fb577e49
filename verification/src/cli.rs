//! The values the process is started with.

use vstd::prelude::*;
use vstd::string::*;

verus! {

/// The values the process is started with.
#[derive(Clone, Debug)]
pub struct Cli {
    /// Bind address, as `host:port`.
    pub bind_addr: String,
    /// Path to the web root (where static files are looked up).
    pub web_root: String,
    /// Logging level.
    pub log_level: String,
}

impl Default for Cli {
    /// Binds to every interface on port 5000, serves the current directory and
    /// logs at level `INFO`.
    fn default() -> (cli: Cli)
        ensures
            cli.bind_addr@ == "0.0.0.0:5000"@,
            cli.web_root@ == "./"@,
            cli.log_level@ == "INFO"@,
    {
        Cli {
            bind_addr: String::from_str("0.0.0.0:5000"),
            web_root: String::from_str("./"),
            log_level: String::from_str("INFO"),
        }
    }
}

} // verus!
