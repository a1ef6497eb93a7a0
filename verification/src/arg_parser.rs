//! The settings that the server is started with.

use vstd::prelude::*;
use vstd::string::StringExecFns;

verus! {

/// What the server is told at its start.
#[derive(Debug, Clone)]
pub struct Args {
    /// Folder path to serve.
    pub folder: String,
    /// Listening host.
    pub host: String,
    /// Listening port.
    pub port: u16,
}

/// The port of the control channel where none is given.
pub const DEFAULT_PORT: u16 = 8180;

impl Default for Args {
    /// The settings of a server that is started without any: it serves the
    /// directory it is started in, to this machine alone.
    fn default() -> (args: Args)
        ensures
            args.folder@ == "./"@,
            args.host@ == "127.0.0.1"@,
            args.port == DEFAULT_PORT,
    {
        Args {
            folder: String::from_str("./"),
            host: String::from_str("127.0.0.1"),
            port: DEFAULT_PORT,
        }
    }
}

} // verus!
