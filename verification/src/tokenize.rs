use vstd::prelude::*;

use crate::tokens::CssTok;
use cssparser::Token;

verus! {

/// cssparser's tokenizer state, declared so that it can stand in the
/// signatures below; opaque to the verifier.
#[verifier::external_type_specification]
#[verifier::external_body]
pub struct ExParser<'i>(cssparser::Parser<'i>);

/// One token as cssparser yields it; opaque, read only through the
/// conversion function below.
#[verifier::external_type_specification]
#[verifier::external_body]
pub struct ExToken<'a>(Token<'a>);

/// One pull from the tokenizer: a finished token — nested blocks already
/// resolved to `Func` or `Square` tokens — or the end of the current
/// input.
enum Pulled {
    Tok(CssTok),
    End,
}

/// Relies on cssparser's Token: tells the token kinds apart, moving their
/// text over; every kind the selector grammar has no use for becomes
/// `Other`, which the grammar accepts nowhere. Block-opening kinds never
/// reach this function.
#[verifier::external_body]
fn conv_tok(t: &Token) -> CssTok {
    match t {
        Token::Ident(s) => CssTok::Ident(s.to_string()),
        Token::IDHash(s) => CssTok::IdHash(s.to_string()),
        Token::QuotedString(s) => CssTok::Str(s.to_string()),
        Token::Delim(c) => CssTok::Delim(*c),
        Token::WhiteSpace(_) => CssTok::Ws,
        Token::Colon => CssTok::Colon,
        Token::Comma => CssTok::Comma,
        Token::IncludeMatch => CssTok::IncludeMatch,
        Token::DashMatch => CssTok::DashMatch,
        Token::PrefixMatch => CssTok::PrefixMatch,
        Token::SuffixMatch => CssTok::SuffixMatch,
        Token::SubstringMatch => CssTok::SubstringMatch,
        _ => CssTok::Other,
    }
}

/// Relies on cssparser's Parser::next_including_whitespace (the next
/// token of the current block, comments skipped; errs only at its end)
/// and on Parser::parse_nested_block, called only right after the pull
/// returned a block-opening token, so the pairing parse_nested_block
/// demands — it panics without it — is established inside this body and
/// never rests on a caller. A function or square-bracket block is
/// resolved on the spot through `collect_inner`; cssparser's
/// nesting-depth refusal yields an `Other` token, which the grammar
/// accepts nowhere.
/// Relies on cssparser's Parser::position and Parser::slice_from, taken
/// and used in that order on one and the same parser, so the slice is
/// always within bounds: collects the rest of the current block through
/// this module's verified collector and hands back its tokens together
/// with their raw text.
#[verifier::external_body]
fn collect_inner(p: &mut cssparser::Parser) -> (Vec<CssTok>, String) {
    let start = p.position();
    let mut inner: Vec<CssTok> = Vec::new();
    collect_tokens(p, &mut inner);
    (inner, p.slice_from(start).to_owned())
}

#[verifier::external_body]
fn next_resolved(p: &mut cssparser::Parser) -> Pulled {
    let name = match p.next_including_whitespace() {
        Err(_) => return Pulled::End,
        Ok(Token::Function(n)) => Some(n.to_string()),
        Ok(Token::SquareBracketBlock) => None,
        Ok(t) => return Pulled::Tok(conv_tok(t)),
    };
    let r = p.parse_nested_block::<_, _, ()>(|p2| Ok(collect_inner(p2)));
    Pulled::Tok(match (r, name) {
        (Ok((inner, raw)), Some(n)) => CssTok::Func(n, raw, inner),
        (Ok((inner, _)), None) => CssTok::Square(inner),
        (Err(_), _) => CssTok::Other,
    })
}

/// Drain the current block of the tokenizer into `out`. Blocks arrive
/// already resolved; should the pull budget ever run out, an `Other`
/// token is left behind, which no selector grammar production accepts.
fn collect_tokens(p: &mut cssparser::Parser, out: &mut Vec<CssTok>) {
    let mut fuel: usize = usize::MAX;
    while fuel > 0
        decreases fuel,
    {
        fuel = fuel - 1;
        match next_resolved(p) {
            Pulled::End => {
                return ;
            },
            Pulled::Tok(t) => {
                out.push(t);
            },
        }
    }
    out.push(CssTok::Other);
}

/// What the external tokenizer yields for a given source text: a function
/// of the text alone.
pub uninterp spec fn toks_of(s: Seq<char>) -> Seq<CssTok>;

/// Relies on cssparser's tokenizer (Parser::new and the pulls above,
/// driven by this module's verified collector): the token stream of a
/// text is a function of that text alone.
#[verifier::external_body]
pub fn tokenize(s: &str) -> (r: Vec<CssTok>)
    ensures
        r@ == toks_of(s@),
{
    let mut p = cssparser::Parser::new(s);
    let mut out: Vec<CssTok> = Vec::new();
    collect_tokens(&mut p, &mut out);
    out
}

/// What the external An+B micro-syntax parser yields for a given argument
/// text: the (a, b) pair, or nothing when the text is not a whole valid
/// An+B form. A function of the text alone.
pub uninterp spec fn nth_of(s: Seq<char>) -> Option<(i32, i32)>;

/// Relies on cssparser::parse_nth, run through Parser::parse_entirely on
/// a parser of its own: the An+B result is a function of the argument
/// text alone, and text left over after the formula fails the parse.
#[verifier::external_body]
pub(crate) fn nth_from_str(s: &str) -> (r: Option<(i32, i32)>)
    ensures
        r == nth_of(s@),
{
    let mut p = cssparser::Parser::new(s);
    let r: Result<(i32, i32), cssparser::ParseError<()>> = p.parse_entirely(
        |p2| cssparser::parse_nth(p2).map_err(Into::into),
    );
    r.ok()
}

} // verus!
