//! The configuration shape: server URL, server port, model name.

use vstd::prelude::*;
use vstd::string::*;

verus! {

/// Settings for one invocation: where the model server listens and which
/// model to ask for. Loaded once from the configuration file and read-only
/// afterwards.
pub struct Config {
    /// Model server URL.
    pub url: String,
    /// Model server port.
    pub port: u16,
    /// Name of the model the server should run.
    pub model: String,
}

impl Default for Config {
    /// The configuration written on first run: a local server on the
    /// conventional port, with a fixed default model.
    fn default() -> (c: Config)
        ensures
            c.url@ == "http://localhost"@,
            c.port == 11434,
            c.model@ == "dolphin-llama3"@,
    {
        Config {
            url: String::from_str("http://localhost"),
            port: 11434,
            model: String::from_str("dolphin-llama3"),
        }
    }
}

} // verus!
