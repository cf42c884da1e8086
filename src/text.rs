//! The textual report formats, as spec functions over character sequences,
//! and the executable pieces that build them.
use vstd::prelude::*;
use crate::diagnostic::views;

verus! {

/// The parts in order, with `sep` between each two neighbours.
pub open spec fn join_with(parts: Seq<Seq<char>>, sep: Seq<char>) -> Seq<char>
    decreases parts.len(),
{
    if parts.len() == 0 {
        Seq::empty()
    } else if parts.len() == 1 {
        parts[0]
    } else {
        join_with(parts.drop_last(), sep) + sep + parts.last()
    }
}

/// The decimal digit for `d`.
pub open spec fn digit(d: nat) -> char {
    seq!['0', '1', '2', '3', '4', '5', '6', '7', '8', '9'][d as int % 10]
}

/// The decimal notation of `n`, without leading zeros.
pub open spec fn decimal(n: nat) -> Seq<char>
    decreases n,
{
    if n < 10 {
        seq![digit(n)]
    } else {
        decimal(n / 10).push(digit(n % 10))
    }
}

/// One entry of the multi-line chain: the 1-based depth in brackets, then the
/// cause's message.
pub open spec fn numbered_line(depth: nat, cause: Seq<char>) -> Seq<char> {
    "    ["@ + decimal(depth) + "] "@ + cause
}

/// The entries of the multi-line chain, one per cause, numbered from 1.
pub open spec fn numbered(causes: Seq<Seq<char>>) -> Seq<Seq<char>> {
    Seq::new(causes.len(), |i: int| numbered_line((i + 1) as nat, causes[i]))
}

/// `"{message} | {c0} <<< {c1} <<< ... <<< {cN}"`; with no causes,
/// `"{message} | "`.
pub open spec fn singleline(message: Seq<char>, causes: Seq<Seq<char>>) -> Seq<char> {
    message + " | "@ + join_with(causes, " <<< "@)
}

/// The message, a blank line, the header `Caused By:`, then one numbered line
/// per cause; with no causes the header still ends the text.
pub open spec fn multiline(message: Seq<char>, causes: Seq<Seq<char>>) -> Seq<char> {
    message + "\n\nCaused By:\n"@ + join_with(numbered(causes), "\n"@)
}

proof fn lemma_join_prefix(parts: Seq<Seq<char>>, sep: Seq<char>, i: int)
    requires
        1 <= i < parts.len(),
    ensures
        join_with(parts.subrange(0, i + 1), sep) == join_with(parts.subrange(0, i), sep) + sep
            + parts[i],
{
    assert(parts.subrange(0, i + 1).drop_last() =~= parts.subrange(0, i));
}

/// Joins the strings in order with `sep` between each two neighbours.
pub fn join(parts: &Vec<String>, sep: &str) -> (r: String)
    ensures
        r@ == join_with(views(parts@), sep@),
{
    let mut r = String::new();
    let mut i: usize = 0;
    while i < parts.len()
        invariant
            i <= parts@.len(),
            r@ == join_with(views(parts@).subrange(0, i as int), sep@),
        decreases parts@.len() - i,
    {
        if i == 0 {
            assert(views(parts@).subrange(0, 1) =~= seq![parts@[0]@]);
        } else {
            r.append(sep);
            proof {
                lemma_join_prefix(views(parts@), sep@, i as int);
            }
        }
        r.append(parts[i].as_str());
        i = i + 1;
    }
    assert(views(parts@).subrange(0, i as int) =~= views(parts@));
    r
}

/// The digit for `d` as a one-character string.
fn digit_str(d: usize) -> (r: &'static str)
    requires
        d < 10,
    ensures
        r@ == seq![digit(d as nat)],
{
    proof {
        reveal_strlit("0");
        reveal_strlit("1");
        reveal_strlit("2");
        reveal_strlit("3");
        reveal_strlit("4");
        reveal_strlit("5");
        reveal_strlit("6");
        reveal_strlit("7");
        reveal_strlit("8");
        reveal_strlit("9");
    }
    match d {
        0 => "0",
        1 => "1",
        2 => "2",
        3 => "3",
        4 => "4",
        5 => "5",
        6 => "6",
        7 => "7",
        8 => "8",
        _ => "9",
    }
}

/// The decimal notation of `n`.
pub fn decimal_string(n: usize) -> (r: String)
    ensures
        r@ == decimal(n as nat),
    decreases n,
{
    if n < 10 {
        String::from_str(digit_str(n))
    } else {
        let mut r = decimal_string(n / 10);
        r.append(digit_str(n % 10));
        r
    }
}

/// The numbered entries of the multi-line chain for these causes.
pub fn numbered_lines(causes: &Vec<String>) -> (r: Vec<String>)
    ensures
        views(r@) == numbered(views(causes@)),
{
    let mut r: Vec<String> = Vec::new();
    let mut i: usize = 0;
    while i < causes.len()
        invariant
            i <= causes@.len(),
            views(r@) == numbered(views(causes@)).subrange(0, i as int),
        decreases causes@.len() - i,
    {
        let ghost before = r@;
        let mut line = String::from_str("    [");
        line.append(decimal_string(i + 1).as_str());
        line.append("] ");
        line.append(causes[i].as_str());
        r.push(line);
        assert(views(r@) =~= views(before) + seq![line@]);
        assert(numbered(views(causes@)).subrange(0, i + 1) =~= numbered(views(causes@)).subrange(
            0,
            i as int,
        ) + seq![numbered(views(causes@))[i as int]]);
        i = i + 1;
    }
    assert(numbered(views(causes@)).subrange(0, i as int) =~= numbered(views(causes@)));
    r
}

} // verus!
