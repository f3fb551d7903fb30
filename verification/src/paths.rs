//! Deriving the application's filesystem paths from the user's home
//! directory: the configuration directory, the configuration file, the
//! directory of system-prompt files, and the file for a named system prompt.

use vstd::prelude::*;
use vstd::string::*;

verus! {

/// The configuration directory: `<home>/.ohllama`.
pub open spec fn spec_base_dir(home: Seq<char>) -> Seq<char> {
    home + "/.ohllama"@
}

/// The configuration file: `<home>/.ohllama/config.toml`.
pub open spec fn spec_config_file(home: Seq<char>) -> Seq<char> {
    spec_base_dir(home) + "/config.toml"@
}

/// The directory of system-prompt files: `<home>/.ohllama/systems`.
pub open spec fn spec_systems_dir(home: Seq<char>) -> Seq<char> {
    spec_base_dir(home) + "/systems"@
}

/// The file holding the system prompt called `name`:
/// `<home>/.ohllama/systems/<name>.md`.
pub open spec fn spec_system_file(home: Seq<char>, name: Seq<char>) -> Seq<char> {
    spec_systems_dir(home) + "/"@ + name + ".md"@
}

/// The file holding the default system prompt, created on first run.
pub open spec fn spec_default_system_file(home: Seq<char>) -> Seq<char> {
    spec_systems_dir(home) + "/default.md"@
}

/// The file the first-run initializer creates is exactly the file that
/// resolving the system-prompt name `default` looks for.
pub proof fn lemma_default_system_file_is_named_default(home: Seq<char>)
    ensures
        spec_default_system_file(home) == spec_system_file(home, "default"@),
{
    reveal_strlit("/default.md");
    reveal_strlit("/");
    reveal_strlit("default");
    reveal_strlit(".md");
    assert(spec_default_system_file(home) =~= spec_system_file(home, "default"@));
}

pub fn base_dir_path(home: &str) -> (r: String)
    ensures
        r@ == spec_base_dir(home@),
{
    let mut s = String::from_str(home);
    s.append("/.ohllama");
    s
}

pub fn config_file_path(home: &str) -> (r: String)
    ensures
        r@ == spec_config_file(home@),
{
    let mut s = base_dir_path(home);
    s.append("/config.toml");
    s
}

pub fn systems_dir_path(home: &str) -> (r: String)
    ensures
        r@ == spec_systems_dir(home@),
{
    let mut s = base_dir_path(home);
    s.append("/systems");
    s
}

pub fn system_file_path(home: &str, name: &str) -> (r: String)
    ensures
        r@ == spec_system_file(home@, name@),
{
    let mut s = systems_dir_path(home);
    s.append("/");
    s.append(name);
    s.append(".md");
    s
}

pub fn default_system_file_path(home: &str) -> (r: String)
    ensures
        r@ == spec_default_system_file(home@),
{
    let mut s = systems_dir_path(home);
    s.append("/default.md");
    s
}

} // verus!
