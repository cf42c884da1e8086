//! Properties that hold of every error's reports.
use vstd::prelude::*;
use crate::diagnostic::DiagnosticError;
use crate::report::HaoyongError;
use crate::text::{decimal, join_with, multiline, numbered, singleline};

verus! {

/// An error without a cause renders to `"{message} | "` on a single line, and
/// to `"{message}\n\nCaused By:\n"` on several lines: the separator and the
/// header stay, with nothing after them.
pub proof fn lemma_no_cause_reports(e: DiagnosticError)
    requires
        e.cause is None,
    ensures
        singleline(e.message_view(), e.causes_view()) == e.message@ + " | "@,
        multiline(e.message_view(), e.causes_view()) == e.message@ + "\n\nCaused By:\n"@,
{
    assert(e.causes_view() =~= Seq::<Seq<char>>::empty());
    assert(numbered(e.causes_view()) =~= Seq::<Seq<char>>::empty());
    assert(e.message@ + " | "@ + Seq::<char>::empty() =~= e.message@ + " | "@);
    assert(e.message@ + "\n\nCaused By:\n"@ + Seq::<char>::empty() =~= e.message@
        + "\n\nCaused By:\n"@);
}

/// With the causes `c0`, `c1`, `c2`, nearest first, the single-line report
/// is `"{message} | {c0} <<< {c1} <<< {c2}"`.
pub proof fn lemma_three_causes_singleline(
    e: DiagnosticError,
    c0: Seq<char>,
    c1: Seq<char>,
    c2: Seq<char>,
)
    requires
        e.causes() == seq![c0, c1, c2],
    ensures
        singleline(e.message_view(), e.causes_view()) == e.message@ + " | "@ + c0 + " <<< "@ + c1
            + " <<< "@ + c2,
{
    let s = " <<< "@;
    let cs = seq![c0, c1, c2];
    assert(cs.drop_last() =~= seq![c0, c1]);
    assert(seq![c0, c1].drop_last() =~= seq![c0]);
    assert(join_with(seq![c0], s) == c0);
    assert(join_with(seq![c0, c1], s) == c0 + s + c1);
    assert(join_with(cs, s) == c0 + s + c1 + s + c2);
    assert(e.message@ + " | "@ + (c0 + s + c1 + s + c2) =~= e.message@ + " | "@ + c0 + s + c1
        + s + c2);
}

/// With the causes `c0`, `c1`, nearest first, the multi-line report is the
/// message, a blank line, the line `Caused By:`, then the lines
/// `"    [1] {c0}"` and `"    [2] {c1}"` in that order.
pub proof fn lemma_two_causes_multiline(e: DiagnosticError, c0: Seq<char>, c1: Seq<char>)
    requires
        e.causes() == seq![c0, c1],
    ensures
        multiline(e.message_view(), e.causes_view()) == e.message@ + "\n\nCaused By:\n"@
            + "    [1] "@ + c0 + "\n"@ + "    [2] "@ + c1,
{
    reveal_strlit("1");
    reveal_strlit("2");
    reveal_strlit("    [");
    reveal_strlit("] ");
    reveal_strlit("    [1] ");
    reveal_strlit("    [2] ");
    let cs = seq![c0, c1];
    let l0 = "    [1] "@ + c0;
    let l1 = "    [2] "@ + c1;
    assert(decimal(1) =~= "1"@);
    assert(decimal(2) =~= "2"@);
    assert("    ["@ + "1"@ + "] "@ =~= "    [1] "@);
    assert("    ["@ + "2"@ + "] "@ =~= "    [2] "@);
    assert(numbered(cs)[0] =~= l0);
    assert(numbered(cs)[1] =~= l1);
    assert(numbered(cs) =~= seq![l0, l1]);
    assert(seq![l0, l1].drop_last() =~= seq![l0]);
    assert(join_with(seq![l0], "\n"@) == l0);
    assert(join_with(seq![l0, l1], "\n"@) == l0 + "\n"@ + l1);
    assert(e.message@ + "\n\nCaused By:\n"@ + (l0 + "\n"@ + l1) =~= e.message@
        + "\n\nCaused By:\n"@ + "    [1] "@ + c0 + "\n"@ + "    [2] "@ + c1);
}

/// Each link of the chain adds exactly one cause: an error has one cause
/// more than its direct cause has, so a walk over a chain of `n` links visits
/// `n` causes and stops.
pub proof fn lemma_cause_adds_one(e: DiagnosticError)
    requires
        e.cause is Some,
    ensures
        e.depth() == e.cause.unwrap().depth() + 1,
{
}

} // verus!
