//! Which received chunks follow a loss of samples.

use vstd::prelude::*;

verus! {

/// The error that came with a received chunk: the name that the driver has for its
/// kind, such as `Timeout` or `Overflow`, and the text that it displays for it.
#[derive(Debug)]
pub struct ReceiveFault {
    pub kind: String,
    pub text: String,
}

/// Whether `needle` stands somewhere in `text`, as consecutive characters.
pub open spec fn occurs_in(needle: Seq<char>, text: Seq<char>) -> bool {
    exists|i: int|
        0 <= i && i + needle.len() <= text.len() && #[trigger] text.subrange(
            i,
            i + needle.len(),
        ) == needle
}

/// A chunk was overrun if its error is an overflow, or says so in its text.
pub open spec fn overruns(fault: Option<ReceiveFault>) -> bool {
    match fault {
        None => false,
        Some(f) => f.kind@ == "Overflow"@ || occurs_in("Overflow"@, f.text@),
    }
}

/// Calls `str::contains` of the standard library with a string pattern. It is taken
/// to return true exactly when the pattern is a run of consecutive characters of the
/// text.
#[verifier::external_body]
fn text_contains(text: &str, needle: &str) -> (r: bool)
    ensures
        r == occurs_in(needle@, text@),
{
    text.contains(needle)
}

/// Whether a chunk that came with `fault` is to be flagged as overrun.
pub fn is_overrun(fault: &Option<ReceiveFault>) -> (r: bool)
    ensures
        r == overruns(*fault),
{
    match fault {
        None => false,
        Some(f) => f.kind == "Overflow".to_owned() || text_contains(f.text.as_str(), "Overflow"),
    }
}

/// A chunk without an error is not overrun; one whose error is an overflow by kind is,
/// whatever the text.
pub proof fn law_overflow_kind_decides(fault: ReceiveFault)
    ensures
        !overruns(None),
        fault.kind@ == "Overflow"@ ==> overruns(Some(fault)),
{
}

/// The word may stand anywhere in the text, with anything before it and behind it.
pub proof fn law_overflow_text_is_found(fault: ReceiveFault, before: Seq<char>, behind: Seq<char>)
    requires
        fault.text@ == before + "Overflow"@ + behind,
    ensures
        overruns(Some(fault)),
{
    let n = before.len() as int;
    let word = "Overflow"@;
    assert(fault.text@.subrange(n, n + word.len()) =~= word);
}

/// Nothing else is overrun: where the kind is another, the text has the word in it.
pub proof fn law_only_overflows_overrun(fault: ReceiveFault)
    requires
        overruns(Some(fault)),
        fault.kind@ != "Overflow"@,
    ensures
        exists|before: Seq<char>, behind: Seq<char>|
            fault.text@ == #[trigger] (before + "Overflow"@ + behind),
{
    let word = "Overflow"@;
    let text = fault.text@;
    let i = choose|i: int|
        0 <= i && i + word.len() <= text.len() && #[trigger] text.subrange(i, i + word.len())
            == word;
    let before = text.subrange(0, i);
    let behind = text.subrange(i + word.len(), text.len() as int);
    assert forall|k: int| 0 <= k < text.len() implies text[k] == (before + word + behind)[k] by {
        if i <= k < i + word.len() {
            assert(text.subrange(i, i + word.len())[k - i] == text[k]);
        }
    }
    assert(text =~= before + word + behind);
}

} // verus!
