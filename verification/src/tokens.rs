use vstd::prelude::*;

verus! {

broadcast use vstd::std_specs::vec::group_vec_axioms;

/// One token of the selector grammar, as handed over by the tokenizer.
///
/// Sub-blocks arrive pre-nested: a function token carries its argument
/// tokens together with the raw argument text, and a square-bracket block
/// carries its content tokens. Every token kind that the selector grammar
/// has no use for arrives as `Other`; the grammar accepts `Other` nowhere,
/// so such a token always invalidates the selector list.
#[derive(Debug, PartialEq, Eq)]
pub enum CssTok {
    /// An identifier.
    Ident(String),
    /// A `#name` hash token whose value is a valid id selector.
    IdHash(String),
    /// A quoted string.
    Str(String),
    /// A single delimiter character such as `.`, `*`, `|`, `>`, `+`, `~`.
    Delim(char),
    /// A run of whitespace.
    Ws,
    /// A colon.
    Colon,
    /// A comma.
    Comma,
    /// The `~=` operator.
    IncludeMatch,
    /// The `|=` operator.
    DashMatch,
    /// The `^=` operator.
    PrefixMatch,
    /// The `$=` operator.
    SuffixMatch,
    /// The `*=` operator.
    SubstringMatch,
    /// A function token: its name, the raw text of its arguments, and its
    /// argument tokens.
    Func(String, String, Vec<CssTok>),
    /// A `[...]` block: its content tokens.
    Square(Vec<CssTok>),
    /// Any other token; never valid inside a selector.
    Other,
}

/// The first position at or after `i` that does not hold whitespace.
pub open spec fn skip_ws(ts: Seq<CssTok>, i: int) -> int
    decreases ts.len() - i,
{
    if 0 <= i < ts.len() && ts[i] is Ws {
        skip_ws(ts, i + 1)
    } else {
        i
    }
}

} // verus!
