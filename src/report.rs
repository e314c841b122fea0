use vstd::prelude::*;
use vstd::string::StringExecFns;
use crate::vote::Vote;

verus! {

/// The text of the warning for a computation named `name`.
pub open spec fn warning_text(name: Seq<char>) -> Seq<char> {
    "WARNING: Function "@ + name + ": Two results match, one differs"@
}

/// The text of the fatal failure for a computation named `name` whose three
/// results render as `d1`, `d2` and `d3`.
pub open spec fn divergence_text(
    name: Seq<char>,
    d1: Seq<char>,
    d2: Seq<char>,
    d3: Seq<char>,
) -> Seq<char> {
    "Function "@ + name + ": All three results differ: "@ + d1 + ", "@ + d2 + ", "@ + d3
}

/// The warning line emitted when two results match and one differs.
pub fn warning_message(name: &str) -> (r: String)
    ensures
        r@ == warning_text(name@),
{
    let mut s = String::from_str("WARNING: Function ");
    s.append(name);
    s.append(": Two results match, one differs");
    s
}

/// The message of the fatal failure raised when all three results differ;
/// `d1`, `d2` and `d3` are the renderings of the results in evaluation order.
pub fn divergence_message(name: &str, d1: &str, d2: &str, d3: &str) -> (r: String)
    ensures
        r@ == divergence_text(name@, d1@, d2@, d3@),
{
    let mut s = String::from_str("Function ");
    s.append(name);
    s.append(": All three results differ: ");
    s.append(d1);
    s.append(", ");
    s.append(d2);
    s.append(", ");
    s.append(d3);
    s
}

impl<T> Vote<T> {
    /// The diagnostic owed for this vote: a warning exactly when two results
    /// match and one differs, nothing when all agree. A divergent vote is
    /// not warned about: it is a fatal failure (see `divergence_message`).
    pub fn warning(&self, name: &str) -> (r: Option<String>)
        ensures
            r is Some <==> self is Majority,
            r is Some ==> r->0@ == warning_text(name@),
    {
        match self {
            Vote::Majority(_, _) => Some(warning_message(name)),
            _ => None,
        }
    }
}

} // verus!
