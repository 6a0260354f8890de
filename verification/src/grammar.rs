use vstd::prelude::*;

use crate::context::CtxV;
use crate::context::lookup_prefix;
use crate::strutil::lower_seq;
use crate::tokenize::nth_of;
use crate::tokens::CssTok;
use crate::tokens::skip_ws;
use crate::types::AttrV;
use crate::types::CaseSensitivity;
use crate::types::Combinator;
use crate::types::ComplexV;
use crate::types::LocalNameV;
use crate::types::NamespaceConstraintV;
use crate::types::SelectorImpl;
use crate::types::SelectorV;
use crate::types::SimpleSelV;
use crate::specificity::Specificity;
use crate::specificity::packed_from;

verus! {

broadcast use
    vstd::std_specs::vec::group_vec_axioms,
    vstd::seq::axiom_seq_index_decreases,
    vstd::seq::axiom_seq_subrange_decreases,
    vstd::seq::axiom_seq_subrange_len,
;

// The recursive productions below carry bounds tests on the positions
// their sub-productions return (such as `i < j <= toks.len()`). Every
// production that yields a value consumes at least one token, so the
// failing side of such a test is never reached; the test keeps each
// definition well-founded without a separate progress proof, and the
// executable parser mirrors it exactly.
/// The three outcomes of a lookahead production: a value with the position
/// after it, "not this production, nothing consumed", or a hard failure
/// that aborts the enclosing selector.
pub enum SpecParsed<T> {
    Found(T, int),
    Absent,
    Invalid,
}

/// The outcome of a production that consumes a whole nested block: a value
/// or a hard failure.
pub enum SpecRes<T> {
    Good(T),
    Bad,
}

/// The outcome of the combinator search between two compounds: either the
/// chain ends with the cursor left at the given position, or a combinator
/// was found and the next compound starts at the given position.
pub enum SpecStep {
    End(int),
    Comb(Combinator, int),
}

/// The outcome of pseudo-element parsing: an optional pseudo-element with
/// the position after it, or a hard failure.
pub enum SpecPseudo<PE> {
    Found(Option<PE>, int),
    Invalid,
}

/// Whether two names are equal up to ASCII case.
pub open spec fn kw(a: Seq<char>, b: Seq<char>) -> bool {
    lower_seq(a) == lower_seq(b)
}

/// Whether a token is the given delimiter character.
pub open spec fn is_delim(t: CssTok, c: char) -> bool {
    t matches CssTok::Delim(d) && d == c
}

/// A legacy CSS2.1 pseudo-element name, accepted after a single colon.
pub open spec fn spec_is_legacy(name: Seq<char>) -> bool {
    kw(name, "before"@) || kw(name, "after"@) || kw(name, "first-line"@) || kw(
        name,
        "first-letter"@,
    )
}

/// The namespace constraint a bare type selector receives: the context's
/// default namespace if one is set, else any namespace.
pub open spec fn spec_dns(ctx: CtxV) -> NamespaceConstraintV {
    match ctx.default_namespace {
        Some(ns) => NamespaceConstraintV::Specific(ns),
        None => NamespaceConstraintV::Any,
    }
}

/// The name or universal `*` that follows an explicit namespace part
/// (`ns|`, `*|` or bare `|`). The universal form is refused inside an
/// attribute selector.
pub open spec fn spec_explicit_ns(
    toks: Seq<CssTok>,
    j: int,
    nsc: NamespaceConstraintV,
    in_attr: bool,
) -> SpecParsed<(NamespaceConstraintV, Option<Seq<char>>)> {
    if 0 <= j < toks.len() {
        match toks[j] {
            CssTok::Delim(d) => if d == '*' && !in_attr {
                SpecParsed::Found((nsc, None), j + 1)
            } else {
                SpecParsed::Invalid
            },
            CssTok::Ident(local) => SpecParsed::Found((nsc, Some(local@)), j + 1),
            _ => SpecParsed::Invalid,
        }
    } else {
        SpecParsed::Invalid
    }
}

/// A qualified name: one of `ident`, `prefix|ident`, `prefix|*`, `*`,
/// `*|ident`, `*|*`, `|ident` or `|*`. A bare identifier receives the
/// default namespace, except inside an attribute selector where it
/// receives no namespace; an unknown prefix is a hard failure; anything
/// else is "not a qualified name" with nothing consumed.
pub open spec fn spec_qualified_name(ctx: CtxV, toks: Seq<CssTok>, i: int, in_attr: bool) -> SpecParsed<
    (NamespaceConstraintV, Option<Seq<char>>),
> {
    if 0 <= i < toks.len() {
        match toks[i] {
            CssTok::Ident(value) => if i + 1 < toks.len() && is_delim(toks[i + 1], '|') {
                match lookup_prefix(ctx.namespace_prefixes, value@) {
                    None => SpecParsed::Invalid,
                    Some(ns) => spec_explicit_ns(
                        toks,
                        i + 2,
                        NamespaceConstraintV::Specific(ns),
                        in_attr,
                    ),
                }
            } else if in_attr {
                SpecParsed::Found(
                    (NamespaceConstraintV::Specific(Seq::empty()), Some(value@)),
                    i + 1,
                )
            } else {
                SpecParsed::Found((spec_dns(ctx), Some(value@)), i + 1)
            },
            CssTok::Delim(d) => if d == '*' {
                if i + 1 < toks.len() && is_delim(toks[i + 1], '|') {
                    spec_explicit_ns(toks, i + 2, NamespaceConstraintV::Any, in_attr)
                } else if in_attr {
                    SpecParsed::Invalid
                } else {
                    SpecParsed::Found((spec_dns(ctx), None), i + 1)
                }
            } else if d == '|' {
                spec_explicit_ns(
                    toks,
                    i + 1,
                    NamespaceConstraintV::Specific(Seq::empty()),
                    in_attr,
                )
            } else {
                SpecParsed::Absent
            },
            _ => SpecParsed::Absent,
        }
    } else {
        SpecParsed::Absent
    }
}

/// The attribute-selector exception, for every context and every stream:
/// a bare identifier in attribute-selector position resolves to the
/// explicit no-namespace constraint, whatever default namespace the
/// context declares — while the same bare identifier as a type selector
/// receives the context's default namespace.
pub proof fn lemma_attribute_ignores_default_namespace(ctx: CtxV, toks: Seq<CssTok>, i: int)
    requires
        0 <= i < toks.len(),
        toks[i] is Ident,
        !(i + 1 < toks.len() && is_delim(toks[i + 1], '|')),
    ensures
        spec_qualified_name(ctx, toks, i, true) == SpecParsed::Found(
            (NamespaceConstraintV::Specific(Seq::empty()), Some(toks[i]->Ident_0@)),
            i + 1,
        ),
        spec_qualified_name(ctx, toks, i, false) == SpecParsed::Found(
            (spec_dns(ctx), Some(toks[i]->Ident_0@)),
            i + 1,
        ),
{
}

/// A type selector: zero, one or two simple selectors (an optional
/// namespace selector, then an optional local-name selector) built from a
/// qualified name. The local name is kept as written and lower-cased.
pub open spec fn spec_type_selector<Impl: SelectorImpl>(ctx: CtxV, toks: Seq<CssTok>, i: int) -> SpecParsed<
    Seq<SimpleSelV<Impl>>,
> {
    match spec_qualified_name(ctx, toks, i, false) {
        SpecParsed::Absent => SpecParsed::Absent,
        SpecParsed::Invalid => SpecParsed::Invalid,
        SpecParsed::Found((nsc, local), j) => {
            let ns_part: Seq<SimpleSelV<Impl>> = match nsc {
                NamespaceConstraintV::Specific(ns) => seq![SimpleSelV::Namespace(ns)],
                NamespaceConstraintV::Any => Seq::empty(),
            };
            let name_part: Seq<SimpleSelV<Impl>> = match local {
                Some(name) => seq![
                    SimpleSelV::LocalName(LocalNameV { name: name, lower_name: lower_seq(name) }),
                ],
                None => Seq::empty(),
            };
            SpecParsed::Found(ns_part + name_part, j)
        },
    }
}

/// A simple pseudo-class name: one of the fixed tree-structural
/// pseudo-classes, matched up to ASCII case, or whatever the host resolves
/// the name to.
pub open spec fn spec_simple_pseudo_class<Impl: SelectorImpl>(ctx: CtxV, name: Seq<char>) -> Option<
    SimpleSelV<Impl>,
> {
    if kw(name, "first-child"@) {
        Some(SimpleSelV::FirstChild)
    } else if kw(name, "last-child"@) {
        Some(SimpleSelV::LastChild)
    } else if kw(name, "only-child"@) {
        Some(SimpleSelV::OnlyChild)
    } else if kw(name, "root"@) {
        Some(SimpleSelV::Root)
    } else if kw(name, "empty"@) {
        Some(SimpleSelV::Empty)
    } else if kw(name, "first-of-type"@) {
        Some(SimpleSelV::FirstOfType)
    } else if kw(name, "last-of-type"@) {
        Some(SimpleSelV::LastOfType)
    } else if kw(name, "only-of-type"@) {
        Some(SimpleSelV::OnlyOfType)
    } else {
        match Impl::spec_non_ts_pseudo_class(ctx, name) {
            Some(pc) => Some(SimpleSelV::NonTSPseudoClass(pc)),
            None => None,
        }
    }
}

/// The value of an attribute comparison: an identifier or a quoted string,
/// with whitespace before it skipped.
pub open spec fn spec_attr_value(toks: Seq<CssTok>, i: int) -> SpecRes<(Seq<char>, int)> {
    let m = skip_ws(toks, i);
    if 0 <= m < toks.len() {
        match toks[m] {
            CssTok::Ident(v) => SpecRes::Good((v@, m + 1)),
            CssTok::Str(v) => SpecRes::Good((v@, m + 1)),
            _ => SpecRes::Bad,
        }
    } else {
        SpecRes::Bad
    }
}

/// Whether only whitespace remains from position `i` on.
pub open spec fn only_ws_left(toks: Seq<CssTok>, i: int) -> bool {
    skip_ws(toks, i) >= toks.len()
}

/// The case flag after an `[attr=value]` comparison: nothing (sensitive),
/// or an `i` identifier (insensitive); anything else fails. The block must
/// hold nothing further.
pub open spec fn spec_attr_flags(toks: Seq<CssTok>, i: int) -> SpecRes<CaseSensitivity> {
    let m = skip_ws(toks, i);
    if m >= toks.len() {
        SpecRes::Good(CaseSensitivity::CaseSensitive)
    } else if 0 <= m && (toks[m] matches CssTok::Ident(v) && kw(v@, "i"@)) && only_ws_left(
        toks,
        m + 1,
    ) {
        SpecRes::Good(CaseSensitivity::CaseInsensitive)
    } else {
        SpecRes::Bad
    }
}

/// The contents of a `[...]` block: a qualified name in attribute-selector
/// position (the default namespace does not apply), then one of the seven
/// attribute operators with its value. Unknown operators and leftover
/// tokens are hard failures.
pub open spec fn spec_attribute<Impl: SelectorImpl>(ctx: CtxV, toks: Seq<CssTok>) -> SpecRes<
    SimpleSelV<Impl>,
> {
    match spec_qualified_name(ctx, toks, 0, true) {
        SpecParsed::Absent => SpecRes::Bad,
        SpecParsed::Invalid => SpecRes::Bad,
        SpecParsed::Found((nsc, local), j) => match local {
            None => SpecRes::Bad,
            Some(name) => {
                let attr = AttrV { name: name, lower_name: lower_seq(name), namespace: nsc };
                let k = skip_ws(toks, j);
                if k >= toks.len() {
                    SpecRes::Good(SimpleSelV::AttrExists(attr))
                } else if !(0 <= k) {
                    SpecRes::Bad
                } else {
                    match toks[k] {
                        CssTok::Delim(d) => if d == '=' {
                            match spec_attr_value(toks, k + 1) {
                                SpecRes::Bad => SpecRes::Bad,
                                SpecRes::Good((v, m)) => match spec_attr_flags(toks, m) {
                                    SpecRes::Good(cs) => SpecRes::Good(
                                        SimpleSelV::AttrEqual(attr, v, cs),
                                    ),
                                    SpecRes::Bad => SpecRes::Bad,
                                },
                            }
                        } else {
                            SpecRes::Bad
                        },
                        CssTok::IncludeMatch => match spec_attr_value(toks, k + 1) {
                            SpecRes::Good((v, m)) => if only_ws_left(toks, m) {
                                SpecRes::Good(SimpleSelV::AttrIncludes(attr, v))
                            } else {
                                SpecRes::Bad
                            },
                            SpecRes::Bad => SpecRes::Bad,
                        },
                        CssTok::DashMatch => match spec_attr_value(toks, k + 1) {
                            SpecRes::Good((v, m)) => if only_ws_left(toks, m) {
                                SpecRes::Good(SimpleSelV::AttrDashMatch(attr, v, v + "-"@))
                            } else {
                                SpecRes::Bad
                            },
                            SpecRes::Bad => SpecRes::Bad,
                        },
                        CssTok::PrefixMatch => match spec_attr_value(toks, k + 1) {
                            SpecRes::Good((v, m)) => if only_ws_left(toks, m) {
                                SpecRes::Good(SimpleSelV::AttrPrefixMatch(attr, v))
                            } else {
                                SpecRes::Bad
                            },
                            SpecRes::Bad => SpecRes::Bad,
                        },
                        CssTok::SubstringMatch => match spec_attr_value(toks, k + 1) {
                            SpecRes::Good((v, m)) => if only_ws_left(toks, m) {
                                SpecRes::Good(SimpleSelV::AttrSubstringMatch(attr, v))
                            } else {
                                SpecRes::Bad
                            },
                            SpecRes::Bad => SpecRes::Bad,
                        },
                        CssTok::SuffixMatch => match spec_attr_value(toks, k + 1) {
                            SpecRes::Good((v, m)) => if only_ws_left(toks, m) {
                                SpecRes::Good(SimpleSelV::AttrSuffixMatch(attr, v))
                            } else {
                                SpecRes::Bad
                            },
                            SpecRes::Bad => SpecRes::Bad,
                        },
                        _ => SpecRes::Bad,
                    }
                }
            },
        },
    }
}

/// One simple selector other than a type selector: `#id`, `.class`, an
/// attribute block, or a colon form. A colon followed by an unknown plain
/// identifier, or by a second colon, consumes nothing, so the caller can
/// retry the position as a pseudo-element.
pub open spec fn spec_one_simple<Impl: SelectorImpl>(ctx: CtxV, toks: Seq<CssTok>, i: int) -> SpecParsed<
    SimpleSelV<Impl>,
>
    decreases toks, toks.len() - i, 2int,
{
    if 0 <= i < toks.len() {
        match toks[i] {
            CssTok::IdHash(id) => SpecParsed::Found(SimpleSelV::ID(id@), i + 1),
            CssTok::Delim(d) => if d == '.' {
                if i + 1 < toks.len() && toks[i + 1] matches CssTok::Ident(class) {
                    SpecParsed::Found(SimpleSelV::Class(toks[i + 1]->Ident_0@), i + 2)
                } else {
                    SpecParsed::Invalid
                }
            } else {
                SpecParsed::Absent
            },
            CssTok::Square(args) => match spec_attribute(ctx, args@) {
                SpecRes::Good(s) => SpecParsed::Found(s, i + 1),
                SpecRes::Bad => SpecParsed::Invalid,
            },
            CssTok::Colon => if i + 1 < toks.len() {
                match toks[i + 1] {
                    CssTok::Ident(name) => match spec_simple_pseudo_class(ctx, name@) {
                        Some(s) => SpecParsed::Found(s, i + 2),
                        None => SpecParsed::Absent,
                    },
                    CssTok::Func(name, raw, args) => match spec_functional_pseudo_class(
                        ctx,
                        name@,
                        raw@,
                        args@,
                    ) {
                        SpecRes::Good(s) => SpecParsed::Found(s, i + 2),
                        SpecRes::Bad => SpecParsed::Invalid,
                    },
                    CssTok::Colon => SpecParsed::Absent,
                    _ => SpecParsed::Invalid,
                }
            } else {
                SpecParsed::Invalid
            },
            _ => SpecParsed::Absent,
        }
    } else {
        SpecParsed::Absent
    }
}

/// A functional pseudo-class: one of the four `nth-*` forms, whose raw
/// argument text the external an+b parser reads, or `not(...)` holding a
/// comma-separated list of complex selectors.
pub open spec fn spec_functional_pseudo_class<Impl: SelectorImpl>(
    ctx: CtxV,
    name: Seq<char>,
    raw: Seq<char>,
    args: Seq<CssTok>,
) -> SpecRes<SimpleSelV<Impl>>
    decreases args, args.len() as int, 9int,
{
    if kw(name, "nth-child"@) {
        match nth_of(raw) {
            Some((a, b)) => SpecRes::Good(SimpleSelV::NthChild(a, b)),
            None => SpecRes::Bad,
        }
    } else if kw(name, "nth-of-type"@) {
        match nth_of(raw) {
            Some((a, b)) => SpecRes::Good(SimpleSelV::NthOfType(a, b)),
            None => SpecRes::Bad,
        }
    } else if kw(name, "nth-last-child"@) {
        match nth_of(raw) {
            Some((a, b)) => SpecRes::Good(SimpleSelV::NthLastChild(a, b)),
            None => SpecRes::Bad,
        }
    } else if kw(name, "nth-last-of-type"@) {
        match nth_of(raw) {
            Some((a, b)) => SpecRes::Good(SimpleSelV::NthLastOfType(a, b)),
            None => SpecRes::Bad,
        }
    } else if kw(name, "not"@) {
        match spec_negation_items::<Impl>(ctx, args, 0, Seq::empty()) {
            SpecRes::Good(list) => SpecRes::Good(SimpleSelV::Negation(list)),
            SpecRes::Bad => SpecRes::Bad,
        }
    } else {
        SpecRes::Bad
    }
}

/// The comma-separated complex selectors inside `not(...)`: each one must
/// reach the next comma or the end of the block, leaving nothing but
/// whitespace behind.
pub open spec fn spec_negation_items<Impl: SelectorImpl>(
    ctx: CtxV,
    toks: Seq<CssTok>,
    i: int,
    acc: Seq<ComplexV<Impl>>,
) -> SpecRes<Seq<ComplexV<Impl>>>
    decreases toks, toks.len() - i, 8int,
{
    match spec_complex(ctx, toks, i) {
        SpecParsed::Invalid => SpecRes::Bad,
        SpecParsed::Absent => SpecRes::Bad,
        SpecParsed::Found(c, j) => {
            let j2 = skip_ws(toks, j);
            if j2 >= toks.len() {
                SpecRes::Good(acc.push(c))
            } else if 0 <= j2 && toks[j2] is Comma && i < j2 + 1 {
                spec_negation_items(ctx, toks, j2 + 1, acc.push(c))
            } else {
                SpecRes::Bad
            }
        },
    }
}

/// The combinator search after a compound: whitespace is consumed while
/// remembered; an explicit `>`, `+` or `~` yields its combinator; any
/// other token ends the search, as descendant if whitespace was seen,
/// else as the end of the chain; a comma always ends the chain.
pub open spec fn spec_combinator_step(toks: Seq<CssTok>, i: int, saw_ws: bool) -> SpecStep
    decreases toks, toks.len() - i, 0int,
{
    if 0 <= i < toks.len() {
        match toks[i] {
            CssTok::Ws => spec_combinator_step(toks, i + 1, true),
            CssTok::Delim(d) => if d == '>' {
                SpecStep::Comb(Combinator::Child, i + 1)
            } else if d == '+' {
                SpecStep::Comb(Combinator::NextSibling, i + 1)
            } else if d == '~' {
                SpecStep::Comb(Combinator::LaterSibling, i + 1)
            } else if saw_ws {
                SpecStep::Comb(Combinator::Descendant, i)
            } else {
                SpecStep::End(i)
            },
            CssTok::Comma => SpecStep::End(i),
            _ => if saw_ws {
                SpecStep::Comb(Combinator::Descendant, i)
            } else {
                SpecStep::End(i)
            },
        }
    } else {
        SpecStep::End(i)
    }
}

/// The loop of simple selectors that follows the optional leading type
/// selector of a compound.
pub open spec fn spec_simple_seq<Impl: SelectorImpl>(
    ctx: CtxV,
    toks: Seq<CssTok>,
    i: int,
    acc: Seq<SimpleSelV<Impl>>,
) -> SpecParsed<Seq<SimpleSelV<Impl>>>
    decreases toks, toks.len() - i, 3int,
{
    match spec_one_simple(ctx, toks, i) {
        SpecParsed::Absent => SpecParsed::Found(acc, i),
        SpecParsed::Invalid => SpecParsed::Invalid,
        SpecParsed::Found(s, j) => if i < j <= toks.len() {
            spec_simple_seq(ctx, toks, j, acc.push(s))
        } else {
            SpecParsed::Invalid
        },
    }
}

/// A compound selector: an optional leading type or universal selector,
/// then simple selectors until a position that holds none. The result may
/// be empty; the caller decides whether that is legal.
pub open spec fn spec_compound<Impl: SelectorImpl>(ctx: CtxV, toks: Seq<CssTok>, i: int) -> SpecParsed<
    Seq<SimpleSelV<Impl>>,
>
    decreases toks, toks.len() - i, 5int,
{
    match spec_type_selector::<Impl>(ctx, toks, i) {
        SpecParsed::Invalid => SpecParsed::Invalid,
        SpecParsed::Absent => spec_simple_seq(ctx, toks, i, Seq::empty()),
        SpecParsed::Found(first, j) => if i <= j <= toks.len() {
            spec_simple_seq(ctx, toks, j, first)
        } else {
            SpecParsed::Invalid
        },
    }
}

/// One step of the chain-building loop: the compound joined by `comb` to
/// everything parsed so far, prepended to the chain.
pub open spec fn spec_attach<Impl: SelectorImpl>(
    acc: ComplexV<Impl>,
    comb: Combinator,
    compound: Seq<SimpleSelV<Impl>>,
) -> ComplexV<Impl> {
    ComplexV { rightmost: compound, ancestors: seq![(comb, acc.rightmost)] + acc.ancestors }
}

/// The combinator loop of a complex selector: look for a combinator; on
/// the end of the chain, stop with the cursor before whatever ended it;
/// otherwise parse the next compound and prepend it, stopping if it is
/// empty (only a pseudo-element can follow).
pub open spec fn spec_complex_rest<Impl: SelectorImpl>(
    ctx: CtxV,
    toks: Seq<CssTok>,
    i: int,
    acc: ComplexV<Impl>,
) -> SpecParsed<ComplexV<Impl>>
    decreases toks, toks.len() - i, 6int,
{
    match spec_combinator_step(toks, i, false) {
        SpecStep::End(e) => SpecParsed::Found(acc, e),
        SpecStep::Comb(comb, k) => {
            let k2 = if comb is Descendant {
                k
            } else {
                skip_ws(toks, k)
            };
            if i <= k2 <= toks.len() {
                match spec_compound(ctx, toks, k2) {
                    SpecParsed::Invalid => SpecParsed::Invalid,
                    SpecParsed::Absent => SpecParsed::Invalid,
                    SpecParsed::Found(compound, m) => if compound.len() == 0 {
                        SpecParsed::Found(spec_attach(acc, comb, compound), m)
                    } else if i < m <= toks.len() {
                        spec_complex_rest(ctx, toks, m, spec_attach(acc, comb, compound))
                    } else {
                        SpecParsed::Invalid
                    },
                }
            } else {
                SpecParsed::Invalid
            }
        },
    }
}

/// A complex selector: leading whitespace, a first compound, then the
/// combinator loop. A complex selector whose first compound is empty ends
/// at once; the caller must then look only for a pseudo-element or fail.
pub open spec fn spec_complex<Impl: SelectorImpl>(ctx: CtxV, toks: Seq<CssTok>, i: int) -> SpecParsed<
    ComplexV<Impl>,
>
    decreases toks, toks.len() - i, 7int,
{
    let i1 = skip_ws(toks, i);
    if i <= i1 <= toks.len() {
        match spec_compound(ctx, toks, i1) {
            SpecParsed::Invalid => SpecParsed::Invalid,
            SpecParsed::Absent => SpecParsed::Invalid,
            SpecParsed::Found(compound, j) => {
                let first = ComplexV { rightmost: compound, ancestors: Seq::empty() };
                if compound.len() == 0 {
                    SpecParsed::Found(first, j)
                } else if i <= j <= toks.len() {
                    spec_complex_rest(ctx, toks, j, first)
                } else {
                    SpecParsed::Invalid
                }
            },
        }
    } else {
        SpecParsed::Invalid
    }
}

/// The optional trailing pseudo-element: absent when no colon stands at
/// the cursor; after one colon, either a legacy CSS2.1 name resolved by
/// the host, or a second colon and any host-recognised name; anything
/// else after the committed colon is a hard failure.
pub open spec fn spec_pseudo_element<Impl: SelectorImpl>(ctx: CtxV, toks: Seq<CssTok>, i: int) -> SpecPseudo<
    Impl::PseudoElement,
> {
    if !(0 <= i < toks.len() && toks[i] is Colon) {
        SpecPseudo::Found(None, i)
    } else if i + 1 >= toks.len() {
        SpecPseudo::Invalid
    } else {
        match toks[i + 1] {
            CssTok::Ident(name) => if spec_is_legacy(name@) {
                match Impl::spec_pseudo_element(ctx, name@) {
                    Some(pe) => SpecPseudo::Found(Some(pe), i + 2),
                    None => SpecPseudo::Invalid,
                }
            } else {
                SpecPseudo::Invalid
            },
            CssTok::Colon => if i + 2 < toks.len() && toks[i + 2] matches CssTok::Ident(name) {
                match Impl::spec_pseudo_element(ctx, toks[i + 2]->Ident_0@) {
                    Some(pe) => SpecPseudo::Found(Some(pe), i + 3),
                    None => SpecPseudo::Invalid,
                }
            } else {
                SpecPseudo::Invalid
            },
            _ => SpecPseudo::Invalid,
        }
    }
}

/// One whole selector: a complex selector, then an optional
/// pseudo-element. A selector whose rightmost compound is empty is legal
/// only when it carries a pseudo-element. The specificity is computed from
/// the finished tree.
pub open spec fn spec_selector<Impl: SelectorImpl>(ctx: CtxV, toks: Seq<CssTok>, i: int) -> SpecParsed<
    SelectorV<Impl>,
> {
    match spec_complex::<Impl>(ctx, toks, i) {
        SpecParsed::Invalid => SpecParsed::Invalid,
        SpecParsed::Absent => SpecParsed::Invalid,
        SpecParsed::Found(c, j) => match spec_pseudo_element::<Impl>(ctx, toks, j) {
            SpecPseudo::Invalid => SpecParsed::Invalid,
            SpecPseudo::Found(pe, k) => if c.rightmost.len() != 0 || pe is Some {
                SpecParsed::Found(
                    SelectorV {
                        complex_selector: c,
                        pseudo_element: pe,
                        specificity: spec_selector_specificity(c, pe is Some),
                    },
                    k,
                )
            } else {
                SpecParsed::Invalid
            },
        },
    }
}

/// The comma-separated selector list: each selector must reach the next
/// comma or the end of the input, leaving nothing but whitespace behind;
/// one failing selector invalidates the whole list.
pub open spec fn spec_selector_list_items<Impl: SelectorImpl>(
    ctx: CtxV,
    toks: Seq<CssTok>,
    i: int,
    acc: Seq<SelectorV<Impl>>,
) -> SpecRes<Seq<SelectorV<Impl>>>
    decreases toks, toks.len() - i, 1int,
{
    match spec_selector(ctx, toks, i) {
        SpecParsed::Invalid => SpecRes::Bad,
        SpecParsed::Absent => SpecRes::Bad,
        SpecParsed::Found(sel, j) => {
            let j2 = skip_ws(toks, j);
            if j2 >= toks.len() {
                SpecRes::Good(acc.push(sel))
            } else if 0 <= j2 && toks[j2] is Comma && i < j2 + 1 {
                spec_selector_list_items(ctx, toks, j2 + 1, acc.push(sel))
            } else {
                SpecRes::Bad
            }
        },
    }
}

/// A whole selector list parsed from a token stream.
pub open spec fn spec_selector_list<Impl: SelectorImpl>(ctx: CtxV, toks: Seq<CssTok>) -> SpecRes<
    Seq<SelectorV<Impl>>,
> {
    spec_selector_list_items(ctx, toks, 0, Seq::empty())
}

/// The three specificity counters carried while a selector tree is
/// walked. They saturate at the top of their width, far beyond the point
/// where packing clamps each tier.
#[derive(Clone, Copy, Debug, Eq, PartialEq, Structural)]
pub struct SpecCounts {
    pub id: u64,
    pub class_like: u64,
    pub element: u64,
}

/// The zero counters.
pub open spec fn counts_zero() -> SpecCounts {
    SpecCounts { id: 0, class_like: 0, element: 0 }
}

/// Saturating addition of two counters.
pub open spec fn sat_add_u64(a: u64, b: u64) -> u64 {
    if a + b > u64::MAX {
        u64::MAX
    } else {
        (a + b) as u64
    }
}

/// Elementwise saturating sum of two counter triples.
pub open spec fn counts_add(a: SpecCounts, b: SpecCounts) -> SpecCounts {
    SpecCounts {
        id: sat_add_u64(a.id, b.id),
        class_like: sat_add_u64(a.class_like, b.class_like),
        element: sat_add_u64(a.element, b.element),
    }
}

/// Lexicographic comparison of two counter triples: id tier first, then
/// class-like, then element — the CSS specificity order.
pub open spec fn counts_ge(a: SpecCounts, b: SpecCounts) -> bool {
    a.id > b.id || (a.id == b.id && (a.class_like > b.class_like || (a.class_like == b.class_like
        && a.element >= b.element)))
}

/// What one simple selector contributes: a local name counts as an
/// element; an id as an id; classes, attributes and pseudo-classes as
/// class-like; a namespace selector contributes nothing; a negation
/// contributes the maximum specificity among its alternatives.
pub open spec fn simple_counts<Impl: SelectorImpl>(s: SimpleSelV<Impl>) -> SpecCounts
    decreases s,
{
    match s {
        SimpleSelV::LocalName(_) => SpecCounts { id: 0, class_like: 0, element: 1 },
        SimpleSelV::ID(_) => SpecCounts { id: 1, class_like: 0, element: 0 },
        SimpleSelV::Namespace(_) => counts_zero(),
        SimpleSelV::Negation(alts) => negation_max(alts),
        _ => SpecCounts { id: 0, class_like: 1, element: 0 },
    }
}

/// The maximum specificity among the alternatives of a negation, in the
/// lexicographic specificity order; zero when there are none.
pub open spec fn negation_max<Impl: SelectorImpl>(alts: Seq<ComplexV<Impl>>) -> SpecCounts
    decreases alts,
{
    if alts.len() == 0 {
        counts_zero()
    } else {
        let head = complex_counts(alts[0]);
        let rest = negation_max(alts.drop_first());
        if counts_ge(head, rest) {
            head
        } else {
            rest
        }
    }
}

/// The sum of the contributions of a compound's simple selectors.
pub open spec fn compound_counts<Impl: SelectorImpl>(ss: Seq<SimpleSelV<Impl>>) -> SpecCounts
    decreases ss,
{
    if ss.len() == 0 {
        counts_zero()
    } else {
        counts_add(simple_counts(ss[0]), compound_counts(ss.drop_first()))
    }
}

/// The sum of the contributions of the ancestor compounds of a chain.
pub open spec fn ancestors_counts<Impl: SelectorImpl>(
    a: Seq<(Combinator, Seq<SimpleSelV<Impl>>)>,
) -> SpecCounts
    decreases a,
{
    if a.len() == 0 {
        counts_zero()
    } else {
        counts_add(compound_counts(a[0].1), ancestors_counts(a.drop_first()))
    }
}

/// The counters of a whole complex selector: every compound along the
/// chain contributes, not just the rightmost.
pub open spec fn complex_counts<Impl: SelectorImpl>(c: ComplexV<Impl>) -> SpecCounts
    decreases c,
{
    counts_add(compound_counts(c.rightmost), ancestors_counts(c.ancestors))
}

/// An empty token stream yields no selector list, whatever the context:
/// the sole selector candidate has an empty compound and no
/// pseudo-element, which the grammar rejects.
pub proof fn lemma_empty_input_fails<Impl: SelectorImpl>(ctx: CtxV)
    ensures
        spec_selector_list::<Impl>(ctx, Seq::empty()) is Bad,
{
    let toks = Seq::<CssTok>::empty();
    assert(skip_ws(toks, 0) == 0);
    assert(spec_qualified_name(ctx, toks, 0, false) is Absent);
    assert(spec_one_simple::<Impl>(ctx, toks, 0) is Absent);
    assert(spec_simple_seq::<Impl>(ctx, toks, 0, Seq::empty()) == SpecParsed::Found(
        Seq::<SimpleSelV<Impl>>::empty(),
        0int,
    ));
    assert(spec_complex::<Impl>(ctx, toks, 0) matches SpecParsed::Found(c, j) && c.rightmost.len()
        == 0 && j == 0);
    assert(spec_selector::<Impl>(ctx, toks, 0) is Invalid);
}

/// The maximum a negation contributes dominates every alternative in the
/// specificity order, and — unless there are none — is the contribution
/// of one of them: a negation counts its most specific argument, not the
/// sum of all.
pub proof fn lemma_negation_max_dominates<Impl: SelectorImpl>(alts: Seq<ComplexV<Impl>>)
    ensures
        simple_counts(SimpleSelV::Negation(alts)) == negation_max(alts),
        forall|k: int|
            0 <= k < alts.len() ==> counts_ge(negation_max(alts), #[trigger] complex_counts(alts[k])),
        alts.len() > 0 ==> exists|k: int|
            0 <= k < alts.len() && negation_max(alts) == complex_counts(alts[k]),
    decreases alts,
{
    if alts.len() > 0 {
        lemma_negation_max_dominates::<Impl>(alts.drop_first());
        let rest = alts.drop_first();
        assert forall|k: int|
            0 <= k < alts.len() implies counts_ge(
            negation_max(alts),
            #[trigger] complex_counts(alts[k]),
        ) by {
            if k > 0 {
                assert(rest[k - 1] == alts[k]);
                assert(counts_ge(negation_max(rest), complex_counts(rest[k - 1])));
            }
        }
        if counts_ge(complex_counts(alts[0]), negation_max(rest)) {
            assert(negation_max(alts) == complex_counts(alts[0]));
        } else {
            assert(counts_ge(complex_counts(alts[0]), counts_zero()));
            assert(rest.len() > 0);
            let i = choose|i: int|
                0 <= i < rest.len() && negation_max(rest) == complex_counts(rest[i]);
            assert(rest[i] == alts[i + 1]);
            assert(0 <= i + 1 < alts.len() && negation_max(alts) == complex_counts(alts[i + 1]));
        }
    }
}

/// The packed specificity of a finished selector: the counters of its
/// complex selector, one more element if it carries a pseudo-element,
/// packed with per-tier saturation at 1023.
pub open spec fn spec_selector_specificity<Impl: SelectorImpl>(
    c: ComplexV<Impl>,
    has_pseudo_element: bool,
) -> Specificity {
    let t = complex_counts(c);
    let e = if has_pseudo_element {
        sat_add_u64(t.element, 1)
    } else {
        t.element
    };
    packed_from(t.id as int, t.class_like as int, e as int)
}

} // verus!
