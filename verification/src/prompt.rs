//! Assembling the request text: the effective system-prompt name, the join
//! of piped standard-input lines, and the final prompt sent to the model
//! server.

use vstd::prelude::*;
use vstd::string::*;

verus! {

/// The name of the system prompt to load: the one the user gave, or
/// `default` when none was given.
pub fn resolve_system_name(name: Option<String>) -> (r: String)
    ensures
        name matches Some(n) ==> r@ == n@,
        name is None ==> r@ == "default"@,
{
    match name {
        Some(n) => n,
        None => String::from_str("default"),
    }
}

/// The error reported when the named system-prompt file does not exist;
/// it names the missing file.
pub fn missing_system_error(path: &str) -> (r: String)
    ensures
        r@ == "Missing system, no file found: "@ + path@,
{
    let mut s = String::from_str("Missing system, no file found: ");
    s.append(path);
    s
}

/// The lines read from standard input, joined by single newlines: empty for
/// no lines, and no separator before the first or after the last line.
pub open spec fn spec_join_lines(lines: Seq<Seq<char>>) -> Seq<char>
    decreases lines.len(),
{
    if lines.len() == 0 {
        Seq::empty()
    } else if lines.len() == 1 {
        lines[0]
    } else {
        spec_join_lines(lines.drop_last()) + "\n"@ + lines.last()
    }
}

/// The views of a sequence of strings.
pub open spec fn spec_views(lines: Seq<String>) -> Seq<Seq<char>> {
    lines.map_values(|s: String| s@)
}

/// Joins the piped standard-input lines with newline separators.
pub fn join_lines(lines: &Vec<String>) -> (r: String)
    ensures
        r@ == spec_join_lines(spec_views(lines@)),
{
    let ghost views = spec_views(lines@);
    let mut r = String::new();
    let mut i: usize = 0;
    while i < lines.len()
        invariant
            i <= lines.len(),
            views == spec_views(lines@),
            r@ == spec_join_lines(views.take(i as int)),
        decreases lines.len() - i,
    {
        if i > 0 {
            r.append("\n");
        }
        r.append(lines[i].as_str());
        proof {
            assert(views.take(i + 1).drop_last() =~= views.take(i as int));
            assert(views.take(i + 1).last() == lines@[i as int]@);
            if i == 0 {
                assert(r@ =~= spec_join_lines(views.take(i + 1)));
            }
        }
        i = i + 1;
    }
    proof {
        assert(views.take(lines@.len() as int) =~= views);
    }
    r
}

/// What standard input contributes to the request: nothing when standard
/// input is an interactive terminal, else the piped lines joined by
/// newlines.
pub fn stdin_contribution(interactive: bool, lines: &Vec<String>) -> (r: String)
    ensures
        interactive ==> r@ == Seq::<char>::empty(),
        !interactive ==> r@ == spec_join_lines(spec_views(lines@)),
{
    if interactive {
        String::new()
    } else {
        join_lines(lines)
    }
}

/// The request text sent to the model server: a `System:` label, the system
/// prompt, a `User:` label, the user prompt, then the piped input verbatim.
pub open spec fn spec_assembled_prompt(
    system: Seq<char>,
    user: Seq<char>,
    piped: Seq<char>,
) -> Seq<char> {
    "System: "@ + system + ".\nUser: "@ + user + piped
}

/// Builds the request text from the system prompt, the user prompt and the
/// piped standard-input text.
pub fn assemble_prompt(system: &str, user: &str, piped: &str) -> (r: String)
    ensures
        r@ == spec_assembled_prompt(system@, user@, piped@),
{
    let mut s = String::from_str("System: ");
    s.append(system);
    s.append(".\nUser: ");
    s.append(user);
    s.append(piped);
    s
}

/// The assembled request ends with the user prompt immediately followed by
/// the piped text, with no separator between or after them.
pub proof fn lemma_prompt_ends_with_user_then_piped(
    system: Seq<char>,
    user: Seq<char>,
    piped: Seq<char>,
)
    ensures
        spec_assembled_prompt(system, user, piped).skip(
            spec_assembled_prompt(system, user, piped).len() - user.len() - piped.len(),
        ) == user + piped,
{
    let a = spec_assembled_prompt(system, user, piped);
    assert(a.skip(a.len() - user.len() - piped.len()) =~= user + piped);
}

} // verus!
