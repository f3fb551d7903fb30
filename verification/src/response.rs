//! Turning the model server's outcome into what the program does with it:
//! the generated text is printed exactly as received, and a failure becomes
//! one user-facing message naming the likely cause.

use vstd::prelude::*;
use vstd::string::*;

verus! {

/// The outcome of the one generation request: the generated text, or a
/// description of why the request failed.
pub enum ModelResponse {
    Success(String),
    Failure(String),
}

/// Decides what the invocation ends with: on success, the text to write to
/// standard output, exactly as received; on failure, the error message made
/// of the fixed explanation followed by the underlying cause.
pub fn handle_response(res: ModelResponse) -> (r: Result<String, String>)
    ensures
        res matches ModelResponse::Success(text) ==> (r matches Ok(out) && out@ == text@),
        res matches ModelResponse::Failure(cause) ==> (r matches Err(msg) && msg@
            == "unable to request Ollama, is Ollama running?: "@ + cause@),
{
    match res {
        ModelResponse::Success(text) => Ok(text),
        ModelResponse::Failure(cause) => {
            let mut msg = String::from_str("unable to request Ollama, is Ollama running?: ");
            msg.append(cause.as_str());
            Err(msg)
        },
    }
}

} // verus!
