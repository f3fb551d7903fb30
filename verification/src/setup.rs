//! The first-run initializer's decision and the default file contents.
//!
//! Whether anything must be created is decided here from three facts the
//! caller observes on the filesystem; the caller performs the writes. Once
//! the configuration directory, the configuration file and the default
//! system-prompt file all exist, no further work is planned, so running the
//! initializer again changes nothing.

use vstd::prelude::*;
use vstd::string::*;

verus! {

/// First-run work is needed unless the configuration directory, the
/// configuration file and the default system-prompt file all exist already.
pub open spec fn spec_setup_needed(
    base_dir_exists: bool,
    config_file_exists: bool,
    default_system_exists: bool,
) -> bool {
    !(base_dir_exists && config_file_exists && default_system_exists)
}

/// Decides whether the first-run initializer has anything to create, from
/// what the caller observed on the filesystem.
pub fn setup_needed(
    base_dir_exists: bool,
    config_file_exists: bool,
    default_system_exists: bool,
) -> (b: bool)
    ensures
        b == spec_setup_needed(base_dir_exists, config_file_exists, default_system_exists),
{
    !(base_dir_exists && config_file_exists && default_system_exists)
}

/// Once an invocation has put the directory and both default files in
/// place, a later invocation plans no filesystem change: the initializer is
/// idempotent at the level of its decision.
pub proof fn lemma_setup_idempotent()
    ensures
        !spec_setup_needed(true, true, true),
{
}

/// The persona text written to `systems/default.md` on first run.
pub open spec fn spec_default_system_prompt() -> Seq<char> {
    "You are an AI working with cli input, an expert at processing instructions and command output. \n    Your return output in format that is easily processable by other tools. \n    You return no additional comments or remarks.\n    Just return the output of what you were asked to do."@
}

pub fn default_system_prompt() -> (r: String)
    ensures
        r@ == spec_default_system_prompt(),
{
    String::from_str(
        "You are an AI working with cli input, an expert at processing instructions and command output. \n    Your return output in format that is easily processable by other tools. \n    You return no additional comments or remarks.\n    Just return the output of what you were asked to do.",
    )
}

} // verus!
