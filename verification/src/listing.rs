//! Formatting the listing of available system prompts: for each file its
//! name on a `System:` line, then its full contents, then a blank line.

use vstd::prelude::*;
use vstd::string::*;

verus! {

/// One system-prompt file, as the caller read it from the systems
/// directory: the file's name and its full contents.
pub struct SystemEntry {
    pub name: String,
    pub contents: String,
}

/// The text printed for one system-prompt file: `System: <name>`, a
/// newline, the contents, and a blank line.
pub open spec fn spec_listing_entry(name: Seq<char>, contents: Seq<char>) -> Seq<char> {
    "System: "@ + name + "\n"@ + contents + "\n\n"@
}

/// The text printed for a sequence of system-prompt files, in order.
pub open spec fn spec_listing(entries: Seq<SystemEntry>) -> Seq<char>
    decreases entries.len(),
{
    if entries.len() == 0 {
        Seq::empty()
    } else {
        spec_listing(entries.drop_last()) + spec_listing_entry(
            entries.last().name@,
            entries.last().contents@,
        )
    }
}

/// The listing of two system-prompt files is exactly the first file's
/// block followed by the second's, so both names and both full contents
/// appear in the output.
pub proof fn lemma_listing_of_two(e1: SystemEntry, e2: SystemEntry)
    ensures
        spec_listing(seq![e1, e2]) == spec_listing_entry(e1.name@, e1.contents@)
            + spec_listing_entry(e2.name@, e2.contents@),
{
    let one = seq![e1];
    let two = seq![e1, e2];
    assert(spec_listing(Seq::<SystemEntry>::empty()) == Seq::<char>::empty());
    assert(one.drop_last() =~= Seq::<SystemEntry>::empty());
    assert(one.last() == e1);
    assert(spec_listing(one) =~= spec_listing_entry(e1.name@, e1.contents@));
    assert(two.drop_last() =~= one);
    assert(two.last() == e2);
    assert(spec_listing(two) =~= spec_listing_entry(e1.name@, e1.contents@)
        + spec_listing_entry(e2.name@, e2.contents@));
}

/// Formats the listing block for one system-prompt file.
pub fn format_listing_entry(name: &str, contents: &str) -> (r: String)
    ensures
        r@ == spec_listing_entry(name@, contents@),
{
    let mut s = String::from_str("System: ");
    s.append(name);
    s.append("\n");
    s.append(contents);
    s.append("\n\n");
    s
}

/// Formats the whole listing, one block per file, in the order given.
pub fn format_listing(entries: &Vec<SystemEntry>) -> (r: String)
    ensures
        r@ == spec_listing(entries@),
{
    let mut r = String::new();
    let mut i: usize = 0;
    while i < entries.len()
        invariant
            i <= entries.len(),
            r@ == spec_listing(entries@.take(i as int)),
        decreases entries.len() - i,
    {
        let block = format_listing_entry(entries[i].name.as_str(), entries[i].contents.as_str());
        r.append(block.as_str());
        proof {
            assert(entries@.take(i + 1).drop_last() =~= entries@.take(i as int));
            assert(entries@.take(i + 1).last() == entries@[i as int]);
            if i == 0 {
                assert(r@ =~= spec_listing(entries@.take(i + 1)));
            }
        }
        i = i + 1;
    }
    proof {
        assert(entries@.take(entries@.len() as int) =~= entries@);
    }
    r
}

} // verus!
