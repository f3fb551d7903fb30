//! The program's one branch point: list the available system prompts, or
//! build a request from the user's prompt and contact the model server.

use vstd::prelude::*;
use vstd::string::*;

verus! {

/// What an invocation does after loading the configuration.
pub enum Mode {
    /// Print every system-prompt file and exit without a model request.
    ListSystems,
    /// Send one generation request built around this user prompt.
    Generate { user_prompt: String },
}

/// Decides the mode from the command line: listing wins over generating,
/// and generating without a user prompt is an error naming what is missing.
pub fn choose_mode(list: bool, user_prompt: Option<String>) -> (r: Result<Mode, String>)
    ensures
        list ==> (r matches Ok(m) && m is ListSystems),
        !list ==> (user_prompt matches Some(p) ==> (r matches Ok(m) && m matches Mode::Generate {
            user_prompt: q,
        } && q@ == p@)),
        !list && user_prompt is None ==> (r matches Err(e) && e@ == "Missing User prompt!"@),
{
    if list {
        Ok(Mode::ListSystems)
    } else {
        match user_prompt {
            Some(p) => Ok(Mode::Generate { user_prompt: p }),
            None => Err(String::from_str("Missing User prompt!")),
        }
    }
}

} // verus!
