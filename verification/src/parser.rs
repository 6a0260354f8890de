use vstd::prelude::*;

use crate::context::ParserContext;
use crate::grammar::SpecParsed;
use crate::grammar::SpecPseudo;
use crate::grammar::SpecRes;
use crate::grammar::SpecStep;
use crate::grammar::SpecCounts;
use crate::grammar::ancestors_counts;
use crate::grammar::complex_counts;
use crate::grammar::compound_counts;
use crate::grammar::counts_add;
use crate::grammar::counts_ge;
use crate::grammar::counts_zero;
use crate::grammar::is_delim;
use crate::grammar::negation_max;
use crate::grammar::sat_add_u64;
use crate::grammar::simple_counts;
use crate::grammar::spec_attr_flags;
use crate::grammar::spec_attr_value;
use crate::grammar::spec_attribute;
use crate::grammar::spec_combinator_step;
use crate::grammar::spec_complex;
use crate::grammar::spec_complex_rest;
use crate::grammar::spec_compound;
use crate::grammar::spec_dns;
use crate::grammar::spec_explicit_ns;
use crate::grammar::spec_functional_pseudo_class;
use crate::grammar::spec_is_legacy;
use crate::grammar::spec_negation_items;
use crate::grammar::spec_one_simple;
use crate::grammar::spec_pseudo_element;
use crate::grammar::spec_qualified_name;
use crate::grammar::spec_selector;
use crate::grammar::spec_selector_list;
use crate::grammar::spec_selector_list_items;
use crate::grammar::spec_selector_specificity;
use crate::grammar::spec_simple_pseudo_class;
use crate::grammar::spec_simple_seq;
use crate::grammar::spec_type_selector;
use crate::specificity::Specificity;
use crate::specificity::clamp_tier;
use crate::specificity::lemma_packed_from_eq;
use crate::specificity::packed_of;
use crate::strutil::ascii_lowercase;
use crate::strutil::eq_ignore_ascii_case;
use crate::strutil::lower_seq;
use crate::tokenize::nth_from_str;
use crate::tokenize::tokenize;
use crate::tokenize::toks_of;
use crate::tokens::CssTok;
use crate::tokens::skip_ws;
use crate::types::AttrSelector;
use crate::types::CaseSensitivity;
use crate::types::Combinator;
use crate::types::ComplexSelector;
use crate::types::ComplexV;
use crate::types::LocalName;
use crate::types::LocalNameV;
use crate::types::NamespaceConstraintV;
use crate::types::NamespaceConstraint;
use crate::types::Selector;
use crate::types::SelectorImpl;
use crate::types::SelectorV;
use crate::types::SimpleSelV;
use crate::types::SimpleSelector;
use crate::types::complex_model;
use crate::types::complexes_model;
use crate::types::lemma_complexes_model;
use crate::types::lemma_complexes_model_push;
use crate::types::lemma_selectors_model_push;
use crate::types::lemma_simples_model;
use crate::types::lemma_simples_model_push;
use crate::types::ns_constraint_model;
use crate::types::selector_model;
use crate::types::selectors_model;
use crate::types::simple_model;
use crate::types::simples_model;
use vstd::string::StrSliceExecFns;
use vstd::string::StringExecFns;

verus! {

broadcast use
    vstd::std_specs::vec::group_vec_axioms,
    vstd::seq::axiom_seq_index_decreases,
    vstd::seq::axiom_seq_subrange_decreases,
    vstd::seq::axiom_seq_subrange_len,
;

/// The three outcomes of an executable lookahead production, mirroring
/// `SpecParsed`.
pub(crate) enum Parsed<T> {
    Found(T, usize),
    Absent,
    Invalid,
}

/// The executable mirror of `SpecStep`.
pub(crate) enum PStep {
    End(usize),
    Comb(Combinator, usize),
}

/// The executable mirror of `SpecPseudo`.
pub(crate) enum PPseudo<PE> {
    Found(Option<PE>, usize),
    Invalid,
}

/// The content of an optional name.
pub open spec fn opt_str_model(o: Option<String>) -> Option<Seq<char>> {
    match o {
        Some(s) => Some(s@),
        None => None,
    }
}

/// Move the cursor past any whitespace tokens.
fn skip_ws_exec(toks: &Vec<CssTok>, i: usize) -> (r: usize)
    requires
        i <= toks@.len(),
    ensures
        r as int == skip_ws(toks@, i as int),
        i <= r <= toks@.len(),
    decreases toks@.len() - i,
{
    if i < toks.len() {
        match &toks[i] {
            CssTok::Ws => skip_ws_exec(toks, i + 1),
            _ => i,
        }
    } else {
        i
    }
}

/// Whether the token is the given delimiter.
fn is_delim_exec(t: &CssTok, c: char) -> (r: bool)
    ensures
        r == is_delim(*t, c),
{
    match t {
        CssTok::Delim(d) => *d == c,
        _ => false,
    }
}

/// The namespace constraint a bare type selector receives.
fn dns_exec(ctx: &ParserContext) -> (r: NamespaceConstraint)
    ensures
        ns_constraint_model(r) == spec_dns(ctx.ctx_view()),
{
    match &ctx.default_namespace {
        Some(ns) => NamespaceConstraint::Specific(ns.clone()),
        None => NamespaceConstraint::Any,
    }
}

/// The name or universal `*` after an explicit namespace part.
fn explicit_ns_exec(toks: &Vec<CssTok>, j: usize, nsc: NamespaceConstraint, in_attr: bool) -> (r:
    Parsed<(NamespaceConstraint, Option<String>)>)
    requires
        j <= toks@.len(),
    ensures
        ({
            let s = spec_explicit_ns(toks@, j as int, ns_constraint_model(nsc), in_attr);
            match r {
                Parsed::Found(v, k) => k <= toks@.len() && s == SpecParsed::Found(
                    (ns_constraint_model(v.0), opt_str_model(v.1)),
                    k as int,
                ),
                Parsed::Absent => s is Absent,
                Parsed::Invalid => s is Invalid,
            }
        }),
{
    if j >= toks.len() {
        return Parsed::Invalid;
    }
    match &toks[j] {
        CssTok::Delim(d) => {
            if *d == '*' && !in_attr {
                Parsed::Found((nsc, None), j + 1)
            } else {
                Parsed::Invalid
            }
        },
        CssTok::Ident(local) => Parsed::Found((nsc, Some(local.clone())), j + 1),
        _ => Parsed::Invalid,
    }
}

/// A qualified name, if one stands at the cursor.
fn parse_qualified_name(ctx: &ParserContext, toks: &Vec<CssTok>, i: usize, in_attr: bool) -> (r:
    Parsed<(NamespaceConstraint, Option<String>)>)
    requires
        i <= toks@.len(),
    ensures
        ({
            let s = spec_qualified_name(ctx.ctx_view(), toks@, i as int, in_attr);
            match r {
                Parsed::Found(v, k) => k <= toks@.len() && s == SpecParsed::Found(
                    (ns_constraint_model(v.0), opt_str_model(v.1)),
                    k as int,
                ),
                Parsed::Absent => s is Absent,
                Parsed::Invalid => s is Invalid,
            }
        }),
{
    if i >= toks.len() {
        return Parsed::Absent;
    }
    match &toks[i] {
        CssTok::Ident(value) => {
            if i + 1 < toks.len() && is_delim_exec(&toks[i + 1], '|') {
                match ctx.namespace_prefixes.get(value) {
                    None => Parsed::Invalid,
                    Some(ns) => explicit_ns_exec(
                        toks,
                        i + 2,
                        NamespaceConstraint::Specific(ns),
                        in_attr,
                    ),
                }
            } else if in_attr {
                Parsed::Found(
                    (NamespaceConstraint::Specific(String::new()), Some(value.clone())),
                    i + 1,
                )
            } else {
                Parsed::Found((dns_exec(ctx), Some(value.clone())), i + 1)
            }
        },
        CssTok::Delim(d) => {
            let d = *d;
            if d == '*' {
                if i + 1 < toks.len() && is_delim_exec(&toks[i + 1], '|') {
                    explicit_ns_exec(toks, i + 2, NamespaceConstraint::Any, in_attr)
                } else if in_attr {
                    Parsed::Invalid
                } else {
                    Parsed::Found((dns_exec(ctx), None), i + 1)
                }
            } else if d == '|' {
                explicit_ns_exec(
                    toks,
                    i + 1,
                    NamespaceConstraint::Specific(String::new()),
                    in_attr,
                )
            } else {
                Parsed::Absent
            }
        },
        _ => Parsed::Absent,
    }
}

/// The optional leading type or universal selector of a compound.
fn parse_type_selector<Impl: SelectorImpl>(ctx: &ParserContext, toks: &Vec<CssTok>, i: usize) -> (r:
    Parsed<Vec<SimpleSelector<Impl>>>)
    requires
        i <= toks@.len(),
    ensures
        ({
            let s = spec_type_selector::<Impl>(ctx.ctx_view(), toks@, i as int);
            match r {
                Parsed::Found(v, k) => k <= toks@.len() && s == SpecParsed::Found(
                    simples_model(v@),
                    k as int,
                ),
                Parsed::Absent => s is Absent,
                Parsed::Invalid => s is Invalid,
            }
        }),
{
    match parse_qualified_name(ctx, toks, i, false) {
        Parsed::Absent => Parsed::Absent,
        Parsed::Invalid => Parsed::Invalid,
        Parsed::Found((nsc, local), j) => {
            let mut v: Vec<SimpleSelector<Impl>> = Vec::new();
            let ghost ns_part: Seq<SimpleSelV<Impl>> = match ns_constraint_model(nsc) {
                NamespaceConstraintV::Specific(ns) => seq![SimpleSelV::Namespace(ns)],
                NamespaceConstraintV::Any => Seq::empty(),
            };
            proof {
                assert(simples_model(v@) =~= Seq::<SimpleSelV<Impl>>::empty());
            }
            match nsc {
                NamespaceConstraint::Specific(ns) => {
                    let x = SimpleSelector::<Impl>::Namespace(ns);
                    proof {
                        lemma_simples_model_push(v@, x);
                    }
                    v.push(x);
                    proof {
                        assert(simples_model(v@) =~= ns_part);
                    }
                },
                NamespaceConstraint::Any => {
                    proof {
                        assert(simples_model(v@) =~= ns_part);
                    }
                },
            }
            match local {
                Some(name) => {
                    let lower = ascii_lowercase(name.as_str());
                    let ghost expected: Seq<SimpleSelV<Impl>> = ns_part + seq![
                        SimpleSelV::LocalName(
                            LocalNameV { name: name@, lower_name: lower_seq(name@) },
                        ),
                    ];
                    let ln = SimpleSelector::LocalName(LocalName { name: name, lower_name: lower });
                    proof {
                        lemma_simples_model_push(v@, ln);
                    }
                    v.push(ln);
                    proof {
                        assert(simples_model(v@) =~= expected);
                    }
                },
                None => {
                    proof {
                        assert(ns_part + Seq::<SimpleSelV<Impl>>::empty() =~= ns_part);
                    }
                },
            }
            Parsed::Found(v, j)
        },
    }
}

/// A simple pseudo-class name: a fixed tree-structural one or one the
/// host resolves.
fn parse_simple_pseudo_class<Impl: SelectorImpl>(ctx: &ParserContext, name: &String) -> (r: Option<
    SimpleSelector<Impl>,
>)
    ensures
        ({
            let s = spec_simple_pseudo_class::<Impl>(ctx.ctx_view(), name@);
            match r {
                Some(sel) => s == Some(simple_model(sel)),
                None => s is None,
            }
        }),
{
    if eq_ignore_ascii_case(name.as_str(), "first-child") {
        Some(SimpleSelector::FirstChild)
    } else if eq_ignore_ascii_case(name.as_str(), "last-child") {
        Some(SimpleSelector::LastChild)
    } else if eq_ignore_ascii_case(name.as_str(), "only-child") {
        Some(SimpleSelector::OnlyChild)
    } else if eq_ignore_ascii_case(name.as_str(), "root") {
        Some(SimpleSelector::Root)
    } else if eq_ignore_ascii_case(name.as_str(), "empty") {
        Some(SimpleSelector::Empty)
    } else if eq_ignore_ascii_case(name.as_str(), "first-of-type") {
        Some(SimpleSelector::FirstOfType)
    } else if eq_ignore_ascii_case(name.as_str(), "last-of-type") {
        Some(SimpleSelector::LastOfType)
    } else if eq_ignore_ascii_case(name.as_str(), "only-of-type") {
        Some(SimpleSelector::OnlyOfType)
    } else {
        match Impl::parse_non_ts_pseudo_class(ctx, name.as_str()) {
            Ok(pc) => Some(SimpleSelector::NonTSPseudoClass(pc)),
            Err(_) => None,
        }
    }
}

/// An attribute comparison's value: an identifier or a quoted string.
fn parse_attr_value(toks: &Vec<CssTok>, i: usize) -> (r: Option<(String, usize)>)
    requires
        i <= toks@.len(),
    ensures
        ({
            let s = spec_attr_value(toks@, i as int);
            match r {
                Some((v, m)) => m <= toks@.len() && s == SpecRes::Good((v@, m as int)),
                None => s is Bad,
            }
        }),
{
    let m = skip_ws_exec(toks, i);
    if m >= toks.len() {
        return None;
    }
    match &toks[m] {
        CssTok::Ident(v) => Some((v.clone(), m + 1)),
        CssTok::Str(v) => Some((v.clone(), m + 1)),
        _ => None,
    }
}

/// The case flag after an `[attr=value]` comparison.
fn parse_attribute_flags(toks: &Vec<CssTok>, i: usize) -> (r: Option<CaseSensitivity>)
    requires
        i <= toks@.len(),
    ensures
        ({
            let s = spec_attr_flags(toks@, i as int);
            match r {
                Some(cs) => s == SpecRes::Good(cs),
                None => s is Bad,
            }
        }),
{
    let m = skip_ws_exec(toks, i);
    if m >= toks.len() {
        return Some(CaseSensitivity::CaseSensitive);
    }
    match &toks[m] {
        CssTok::Ident(v) => {
            if eq_ignore_ascii_case(v.as_str(), "i") {
                let m2 = skip_ws_exec(toks, m + 1);
                if m2 >= toks.len() {
                    Some(CaseSensitivity::CaseInsensitive)
                } else {
                    None
                }
            } else {
                None
            }
        },
        _ => None,
    }
}

/// The contents of a `[...]` block, as one attribute simple selector.
fn parse_attribute_selector<Impl: SelectorImpl>(ctx: &ParserContext, toks: &Vec<CssTok>) -> (r:
    Option<SimpleSelector<Impl>>)
    ensures
        ({
            let s = spec_attribute::<Impl>(ctx.ctx_view(), toks@);
            match r {
                Some(sel) => s == SpecRes::Good(simple_model(sel)),
                None => s is Bad,
            }
        }),
{
    match parse_qualified_name(ctx, toks, 0, true) {
        Parsed::Absent => {
            return None;
        },
        Parsed::Invalid => {
            return None;
        },
        Parsed::Found((nsc, local), j) => {
            match local {
                None => {
                    return None;
                },
                Some(name) => {
                    let lower = ascii_lowercase(name.as_str());
                    let attr = AttrSelector { name: name, lower_name: lower, namespace: nsc };
                    let k = skip_ws_exec(toks, j);
                    if k >= toks.len() {
                        return Some(SimpleSelector::AttrExists(attr));
                    }
                    match &toks[k] {
                        CssTok::Delim(d) => {
                            if *d == '=' {
                                match parse_attr_value(toks, k + 1) {
                                    None => {
                                        return None;
                                    },
                                    Some((v, m)) => {
                                        match parse_attribute_flags(toks, m) {
                                            Some(cs) => {
                                                return Some(
                                                    SimpleSelector::AttrEqual(attr, v, cs),
                                                );
                                            },
                                            None => {
                                                return None;
                                            },
                                        }
                                    },
                                }
                            } else {
                                return None;
                            }
                        },
                        CssTok::IncludeMatch => {
                            match parse_attr_value(toks, k + 1) {
                                Some((v, m)) => {
                                    if skip_ws_exec(toks, m) >= toks.len() {
                                        return Some(SimpleSelector::AttrIncludes(attr, v));
                                    } else {
                                        return None;
                                    }
                                },
                                None => {
                                    return None;
                                },
                            }
                        },
                        CssTok::DashMatch => {
                            match parse_attr_value(toks, k + 1) {
                                Some((v, m)) => {
                                    if skip_ws_exec(toks, m) >= toks.len() {
                                        let dashed = v.clone().concat("-");
                                        return Some(
                                            SimpleSelector::AttrDashMatch(attr, v, dashed),
                                        );
                                    } else {
                                        return None;
                                    }
                                },
                                None => {
                                    return None;
                                },
                            }
                        },
                        CssTok::PrefixMatch => {
                            match parse_attr_value(toks, k + 1) {
                                Some((v, m)) => {
                                    if skip_ws_exec(toks, m) >= toks.len() {
                                        return Some(SimpleSelector::AttrPrefixMatch(attr, v));
                                    } else {
                                        return None;
                                    }
                                },
                                None => {
                                    return None;
                                },
                            }
                        },
                        CssTok::SubstringMatch => {
                            match parse_attr_value(toks, k + 1) {
                                Some((v, m)) => {
                                    if skip_ws_exec(toks, m) >= toks.len() {
                                        return Some(SimpleSelector::AttrSubstringMatch(attr, v));
                                    } else {
                                        return None;
                                    }
                                },
                                None => {
                                    return None;
                                },
                            }
                        },
                        CssTok::SuffixMatch => {
                            match parse_attr_value(toks, k + 1) {
                                Some((v, m)) => {
                                    if skip_ws_exec(toks, m) >= toks.len() {
                                        return Some(SimpleSelector::AttrSuffixMatch(attr, v));
                                    } else {
                                        return None;
                                    }
                                },
                                None => {
                                    return None;
                                },
                            }
                        },
                        _ => {
                            return None;
                        },
                    }
                },
            }
        },
    }
}

/// One simple selector other than a type selector.
fn parse_one_simple_selector<Impl: SelectorImpl>(
    ctx: &ParserContext,
    toks: &Vec<CssTok>,
    i: usize,
) -> (r: Parsed<SimpleSelector<Impl>>)
    requires
        i <= toks@.len(),
    ensures
        ({
            let s = spec_one_simple::<Impl>(ctx.ctx_view(), toks@, i as int);
            match r {
                Parsed::Found(sel, k) => k <= toks@.len() && s == SpecParsed::Found(
                    simple_model(sel),
                    k as int,
                ),
                Parsed::Absent => s is Absent,
                Parsed::Invalid => s is Invalid,
            }
        }),
    decreases toks@, toks@.len() - i, 2int,
{
    if i >= toks.len() {
        return Parsed::Absent;
    }
    match &toks[i] {
        CssTok::IdHash(id) => Parsed::Found(SimpleSelector::ID(id.clone()), i + 1),
        CssTok::Delim(d) => {
            if *d == '.' {
                if i + 1 < toks.len() {
                    match &toks[i + 1] {
                        CssTok::Ident(class) => Parsed::Found(
                            SimpleSelector::Class(class.clone()),
                            i + 2,
                        ),
                        _ => Parsed::Invalid,
                    }
                } else {
                    Parsed::Invalid
                }
            } else {
                Parsed::Absent
            }
        },
        CssTok::Square(args) => {
            match parse_attribute_selector::<Impl>(ctx, args) {
                Some(sel) => Parsed::Found(sel, i + 1),
                None => Parsed::Invalid,
            }
        },
        CssTok::Colon => {
            if i + 1 < toks.len() {
                match &toks[i + 1] {
                    CssTok::Ident(name) => {
                        match parse_simple_pseudo_class::<Impl>(ctx, name) {
                            Some(sel) => Parsed::Found(sel, i + 2),
                            None => Parsed::Absent,
                        }
                    },
                    CssTok::Func(name, raw, args) => {
                        match parse_functional_pseudo_class::<Impl>(ctx, name, raw, args) {
                            Some(sel) => Parsed::Found(sel, i + 2),
                            None => Parsed::Invalid,
                        }
                    },
                    CssTok::Colon => Parsed::Absent,
                    _ => Parsed::Invalid,
                }
            } else {
                Parsed::Invalid
            }
        },
        _ => Parsed::Absent,
    }
}

/// A functional pseudo-class: an `nth-*` form or `not(...)`.
fn parse_functional_pseudo_class<Impl: SelectorImpl>(
    ctx: &ParserContext,
    name: &String,
    raw: &String,
    args: &Vec<CssTok>,
) -> (r: Option<SimpleSelector<Impl>>)
    ensures
        ({
            let s = spec_functional_pseudo_class::<Impl>(ctx.ctx_view(), name@, raw@, args@);
            match r {
                Some(sel) => s == SpecRes::Good(simple_model(sel)),
                None => s is Bad,
            }
        }),
    decreases args@, args@.len() as int, 9int,
{
    if eq_ignore_ascii_case(name.as_str(), "nth-child") {
        match nth_from_str(raw.as_str()) {
            Some((a, b)) => Some(SimpleSelector::NthChild(a, b)),
            None => None,
        }
    } else if eq_ignore_ascii_case(name.as_str(), "nth-of-type") {
        match nth_from_str(raw.as_str()) {
            Some((a, b)) => Some(SimpleSelector::NthOfType(a, b)),
            None => None,
        }
    } else if eq_ignore_ascii_case(name.as_str(), "nth-last-child") {
        match nth_from_str(raw.as_str()) {
            Some((a, b)) => Some(SimpleSelector::NthLastChild(a, b)),
            None => None,
        }
    } else if eq_ignore_ascii_case(name.as_str(), "nth-last-of-type") {
        match nth_from_str(raw.as_str()) {
            Some((a, b)) => Some(SimpleSelector::NthLastOfType(a, b)),
            None => None,
        }
    } else if eq_ignore_ascii_case(name.as_str(), "not") {
        let mut alts: Vec<std::sync::Arc<ComplexSelector<Impl>>> = Vec::new();
        proof {
            assert(complexes_model(alts@) =~= Seq::<ComplexV<Impl>>::empty());
        }
        match parse_negation_items::<Impl>(ctx, args, 0, &mut alts) {
            true => Some(SimpleSelector::Negation(alts)),
            false => None,
        }
    } else {
        None
    }
}

/// The comma-separated complex selectors inside `not(...)`, appended to
/// `alts`; reports whether the list parsed.
fn parse_negation_items<Impl: SelectorImpl>(
    ctx: &ParserContext,
    toks: &Vec<CssTok>,
    i: usize,
    alts: &mut Vec<std::sync::Arc<ComplexSelector<Impl>>>,
) -> (ok: bool)
    requires
        i <= toks@.len(),
    ensures
        ({
            let s = spec_negation_items::<Impl>(
                ctx.ctx_view(),
                toks@,
                i as int,
                complexes_model(old(alts)@),
            );
            if ok {
                s == SpecRes::Good(complexes_model(final (alts)@))
            } else {
                s is Bad
            }
        }),
    decreases toks@, toks@.len() - i, 8int,
{
    match parse_complex_selector::<Impl>(ctx, toks, i) {
        Parsed::Invalid => false,
        Parsed::Absent => false,
        Parsed::Found(c, j) => {
            let j2 = skip_ws_exec(toks, j);
            let carc = std::sync::Arc::new(c);
            proof {
                lemma_complexes_model_push(alts@, carc);
            }
            if j2 >= toks.len() {
                alts.push(carc);
                true
            } else {
                match &toks[j2] {
                    CssTok::Comma => {
                        if i < j2 + 1 {
                            alts.push(carc);
                            parse_negation_items::<Impl>(ctx, toks, j2 + 1, alts)
                        } else {
                            false
                        }
                    },
                    _ => false,
                }
            }
        },
    }
}

/// The loop of simple selectors after the optional leading type selector.
fn parse_simple_seq<Impl: SelectorImpl>(
    ctx: &ParserContext,
    toks: &Vec<CssTok>,
    i: usize,
    acc: Vec<SimpleSelector<Impl>>,
) -> (r: Parsed<Vec<SimpleSelector<Impl>>>)
    requires
        i <= toks@.len(),
    ensures
        ({
            let s = spec_simple_seq::<Impl>(ctx.ctx_view(), toks@, i as int, simples_model(acc@));
            match r {
                Parsed::Found(v, k) => k <= toks@.len() && s == SpecParsed::Found(
                    simples_model(v@),
                    k as int,
                ),
                Parsed::Absent => s is Absent,
                Parsed::Invalid => s is Invalid,
            }
        }),
    decreases toks@, toks@.len() - i, 3int,
{
    let mut acc = acc;
    match parse_one_simple_selector::<Impl>(ctx, toks, i) {
        Parsed::Absent => Parsed::Found(acc, i),
        Parsed::Invalid => Parsed::Invalid,
        Parsed::Found(sel, j) => {
            if i < j && j <= toks.len() {
                proof {
                    lemma_simples_model_push(acc@, sel);
                }
                acc.push(sel);
                parse_simple_seq::<Impl>(ctx, toks, j, acc)
            } else {
                Parsed::Invalid
            }
        },
    }
}

/// A compound selector: `[type-or-universal]? [simple]*`; possibly empty.
fn parse_compound_selector<Impl: SelectorImpl>(
    ctx: &ParserContext,
    toks: &Vec<CssTok>,
    i: usize,
) -> (r: Parsed<Vec<SimpleSelector<Impl>>>)
    requires
        i <= toks@.len(),
    ensures
        ({
            let s = spec_compound::<Impl>(ctx.ctx_view(), toks@, i as int);
            match r {
                Parsed::Found(v, k) => k <= toks@.len() && s == SpecParsed::Found(
                    simples_model(v@),
                    k as int,
                ),
                Parsed::Absent => s is Absent,
                Parsed::Invalid => s is Invalid,
            }
        }),
    decreases toks@, toks@.len() - i, 5int,
{
    match parse_type_selector::<Impl>(ctx, toks, i) {
        Parsed::Invalid => Parsed::Invalid,
        Parsed::Absent => {
            let v: Vec<SimpleSelector<Impl>> = Vec::new();
            proof {
                assert(simples_model(v@) =~= Seq::<SimpleSelV<Impl>>::empty());
            }
            parse_simple_seq::<Impl>(ctx, toks, i, v)
        },
        Parsed::Found(first, j) => {
            if i <= j && j <= toks.len() {
                parse_simple_seq::<Impl>(ctx, toks, j, first)
            } else {
                Parsed::Invalid
            }
        },
    }
}

/// The combinator search between two compounds.
fn combinator_step_exec(toks: &Vec<CssTok>, i: usize, saw_ws: bool) -> (r: PStep)
    requires
        i <= toks@.len(),
    ensures
        ({
            let s = spec_combinator_step(toks@, i as int, saw_ws);
            match r {
                PStep::End(e) => e <= toks@.len() && s == SpecStep::End(e as int),
                PStep::Comb(c, k) => k <= toks@.len() && s == SpecStep::Comb(c, k as int),
            }
        }),
    decreases toks@.len() - i,
{
    if i >= toks.len() {
        return PStep::End(i);
    }
    match &toks[i] {
        CssTok::Ws => combinator_step_exec(toks, i + 1, true),
        CssTok::Delim(d) => {
            let d = *d;
            if d == '>' {
                PStep::Comb(Combinator::Child, i + 1)
            } else if d == '+' {
                PStep::Comb(Combinator::NextSibling, i + 1)
            } else if d == '~' {
                PStep::Comb(Combinator::LaterSibling, i + 1)
            } else if saw_ws {
                PStep::Comb(Combinator::Descendant, i)
            } else {
                PStep::End(i)
            }
        },
        CssTok::Comma => PStep::End(i),
        _ => {
            if saw_ws {
                PStep::Comb(Combinator::Descendant, i)
            } else {
                PStep::End(i)
            }
        },
    }
}

/// The combinator loop of a complex selector.
fn parse_complex_rest<Impl: SelectorImpl>(
    ctx: &ParserContext,
    toks: &Vec<CssTok>,
    i: usize,
    acc: ComplexSelector<Impl>,
) -> (r: Parsed<ComplexSelector<Impl>>)
    requires
        i <= toks@.len(),
    ensures
        ({
            let s = spec_complex_rest::<Impl>(ctx.ctx_view(), toks@, i as int, complex_model(acc));
            match r {
                Parsed::Found(c, k) => k <= toks@.len() && s == SpecParsed::Found(
                    complex_model(c),
                    k as int,
                ),
                Parsed::Absent => s is Absent,
                Parsed::Invalid => s is Invalid,
            }
        }),
    decreases toks@, toks@.len() - i, 6int,
{
    match combinator_step_exec(toks, i, false) {
        PStep::End(e) => Parsed::Found(acc, e),
        PStep::Comb(comb, k) => {
            let k2 = if comb == Combinator::Descendant {
                k
            } else {
                skip_ws_exec(toks, k)
            };
            if i <= k2 && k2 <= toks.len() {
                match parse_compound_selector::<Impl>(ctx, toks, k2) {
                    Parsed::Invalid => Parsed::Invalid,
                    Parsed::Absent => Parsed::Invalid,
                    Parsed::Found(compound, m) => {
                        proof {
                            lemma_simples_model(compound@);
                        }
                        let empty = compound.len() == 0;
                        let attached = ComplexSelector {
                            compound_selector: compound,
                            next: Some((std::sync::Arc::new(acc), comb)),
                        };
                        if empty {
                            Parsed::Found(attached, m)
                        } else if i < m && m <= toks.len() {
                            parse_complex_rest::<Impl>(ctx, toks, m, attached)
                        } else {
                            Parsed::Invalid
                        }
                    },
                }
            } else {
                Parsed::Invalid
            }
        },
    }
}

/// A complex selector: its first compound might be empty, in which case
/// the caller should look only for a pseudo-element or abort.
fn parse_complex_selector<Impl: SelectorImpl>(
    ctx: &ParserContext,
    toks: &Vec<CssTok>,
    i: usize,
) -> (r: Parsed<ComplexSelector<Impl>>)
    requires
        i <= toks@.len(),
    ensures
        ({
            let s = spec_complex::<Impl>(ctx.ctx_view(), toks@, i as int);
            match r {
                Parsed::Found(c, k) => k <= toks@.len() && s == SpecParsed::Found(
                    complex_model(c),
                    k as int,
                ),
                Parsed::Absent => s is Absent,
                Parsed::Invalid => s is Invalid,
            }
        }),
    decreases toks@, toks@.len() - i, 7int,
{
    let i1 = skip_ws_exec(toks, i);
    match parse_compound_selector::<Impl>(ctx, toks, i1) {
        Parsed::Invalid => Parsed::Invalid,
        Parsed::Absent => Parsed::Invalid,
        Parsed::Found(compound, j) => {
            proof {
                lemma_simples_model(compound@);
            }
            let empty = compound.len() == 0;
            let first = ComplexSelector { compound_selector: compound, next: None };
            if empty {
                Parsed::Found(first, j)
            } else if i <= j && j <= toks.len() {
                parse_complex_rest::<Impl>(ctx, toks, j, first)
            } else {
                Parsed::Invalid
            }
        },
    }
}

/// Whether a name is one of the legacy CSS2.1 pseudo-elements accepted
/// after a single colon.
pub fn is_legacy_pseudo_element(name: &str) -> (r: bool)
    ensures
        r == spec_is_legacy(name@),
{
    eq_ignore_ascii_case(name, "before") || eq_ignore_ascii_case(name, "after")
        || eq_ignore_ascii_case(name, "first-line") || eq_ignore_ascii_case(name, "first-letter")
}

/// The optional trailing pseudo-element.
fn parse_pseudo_element<Impl: SelectorImpl>(ctx: &ParserContext, toks: &Vec<CssTok>, i: usize) -> (r:
    PPseudo<Impl::PseudoElement>)
    requires
        i <= toks@.len(),
    ensures
        ({
            let s = spec_pseudo_element::<Impl>(ctx.ctx_view(), toks@, i as int);
            match r {
                PPseudo::Found(pe, k) => k <= toks@.len() && s == SpecPseudo::Found(pe, k as int),
                PPseudo::Invalid => s is Invalid,
            }
        }),
{
    if i >= toks.len() {
        return PPseudo::Found(None, i);
    }
    match &toks[i] {
        CssTok::Colon => {
            if i + 1 >= toks.len() {
                return PPseudo::Invalid;
            }
            match &toks[i + 1] {
                CssTok::Ident(name) => {
                    if is_legacy_pseudo_element(name.as_str()) {
                        match Impl::parse_pseudo_element(ctx, name.as_str()) {
                            Ok(pe) => PPseudo::Found(Some(pe), i + 2),
                            Err(_) => PPseudo::Invalid,
                        }
                    } else {
                        PPseudo::Invalid
                    }
                },
                CssTok::Colon => {
                    if i + 2 < toks.len() {
                        match &toks[i + 2] {
                            CssTok::Ident(name) => {
                                match Impl::parse_pseudo_element(ctx, name.as_str()) {
                                    Ok(pe) => PPseudo::Found(Some(pe), i + 3),
                                    Err(_) => PPseudo::Invalid,
                                }
                            },
                            _ => PPseudo::Invalid,
                        }
                    } else {
                        PPseudo::Invalid
                    }
                },
                _ => PPseudo::Invalid,
            }
        },
        _ => PPseudo::Found(None, i),
    }
}

/// Saturating addition of two counters.
fn sat_add_exec(a: u64, b: u64) -> (r: u64)
    ensures
        r == sat_add_u64(a, b),
{
    if a > u64::MAX - b {
        u64::MAX
    } else {
        a + b
    }
}

/// Elementwise saturating sum.
fn counts_add_exec(a: SpecCounts, b: SpecCounts) -> (r: SpecCounts)
    ensures
        r == counts_add(a, b),
{
    SpecCounts {
        id: sat_add_exec(a.id, b.id),
        class_like: sat_add_exec(a.class_like, b.class_like),
        element: sat_add_exec(a.element, b.element),
    }
}

/// Lexicographic comparison in the specificity order.
fn counts_ge_exec(a: SpecCounts, b: SpecCounts) -> (r: bool)
    ensures
        r == counts_ge(a, b),
{
    a.id > b.id || (a.id == b.id && (a.class_like > b.class_like || (a.class_like == b.class_like
        && a.element >= b.element)))
}

/// The contribution of one simple selector.
fn simple_counts_exec<Impl: SelectorImpl>(s: &SimpleSelector<Impl>) -> (r: SpecCounts)
    ensures
        r == simple_counts(simple_model(*s)),
    decreases *s, 1int,
{
    match s {
        SimpleSelector::LocalName(_) => SpecCounts { id: 0, class_like: 0, element: 1 },
        SimpleSelector::ID(_) => SpecCounts { id: 1, class_like: 0, element: 0 },
        SimpleSelector::Namespace(_) => SpecCounts { id: 0, class_like: 0, element: 0 },
        SimpleSelector::Negation(alts) => {
            proof {
                assert(complexes_model(alts@).skip(0) =~= complexes_model(alts@));
            }
            negation_max_exec(alts, 0)
        },
        _ => SpecCounts { id: 0, class_like: 1, element: 0 },
    }
}

/// The maximum specificity among the alternatives from position `i` on.
fn negation_max_exec<Impl: SelectorImpl>(
    alts: &Vec<std::sync::Arc<ComplexSelector<Impl>>>,
    i: usize,
) -> (r: SpecCounts)
    requires
        i <= alts@.len(),
    ensures
        r == negation_max(complexes_model(alts@).skip(i as int)),
    decreases alts@, alts@.len() - i, 0int,
{
    proof {
        lemma_complexes_model(alts@);
    }
    if i >= alts.len() {
        proof {
            assert(complexes_model(alts@).skip(i as int) =~= Seq::<ComplexV<Impl>>::empty());
        }
        SpecCounts { id: 0, class_like: 0, element: 0 }
    } else {
        proof {
            assert(complexes_model(alts@).skip(i as int).drop_first() =~= complexes_model(
                alts@,
            ).skip(i as int + 1));
            assert(complexes_model(alts@).skip(i as int)[0] == complexes_model(alts@)[i as int]);
        }
        let head = complex_counts_exec(&alts[i]);
        let rest = negation_max_exec(alts, i + 1);
        if counts_ge_exec(head, rest) {
            head
        } else {
            rest
        }
    }
}

/// The summed contributions of a compound from position `i` on.
fn compound_counts_exec<Impl: SelectorImpl>(v: &Vec<SimpleSelector<Impl>>, i: usize) -> (r:
    SpecCounts)
    requires
        i <= v@.len(),
    ensures
        r == compound_counts(simples_model(v@).skip(i as int)),
    decreases v@, v@.len() - i, 0int,
{
    proof {
        lemma_simples_model(v@);
    }
    if i >= v.len() {
        proof {
            assert(simples_model(v@).skip(i as int) =~= Seq::<SimpleSelV<Impl>>::empty());
        }
        SpecCounts { id: 0, class_like: 0, element: 0 }
    } else {
        proof {
            assert(simples_model(v@).skip(i as int).drop_first() =~= simples_model(v@).skip(
                i as int + 1,
            ));
            assert(simples_model(v@).skip(i as int)[0] == simples_model(v@)[i as int]);
        }
        let head = simple_counts_exec(&v[i]);
        let rest = compound_counts_exec(v, i + 1);
        counts_add_exec(head, rest)
    }
}

/// The counters of a whole complex selector, every compound of the chain
/// contributing.
fn complex_counts_exec<Impl: SelectorImpl>(c: &ComplexSelector<Impl>) -> (r: SpecCounts)
    ensures
        r == complex_counts(complex_model(*c)),
    decreases *c, 2int,
{
    proof {
        assert(simples_model(c.compound_selector@).skip(0) =~= simples_model(c.compound_selector@));
    }
    let rc = compound_counts_exec(&c.compound_selector, 0);
    match &c.next {
        None => {
            proof {
                let cm = complex_model(*c);
                assert(ancestors_counts(cm.ancestors) == counts_zero());
                assert(counts_add(rc, counts_zero()) == rc);
            }
            rc
        },
        Some(pair) => {
            let parent_ref: &ComplexSelector<Impl> = &pair.0;
            let pr = complex_counts_exec(parent_ref);
            proof {
                let cm = complex_model(*c);
                let pm = complex_model(*parent_ref);
                assert(cm.ancestors[0] == (pair.1, pm.rightmost));
                assert(cm.ancestors.drop_first() =~= pm.ancestors);
                assert(ancestors_counts(cm.ancestors) == counts_add(
                    compound_counts(pm.rightmost),
                    ancestors_counts(pm.ancestors),
                ));
            }
            counts_add_exec(rc, pr)
        },
    }
}

/// Clamp one counter at the packed tier's saturation point.
fn clamp_counter(x: u64) -> (r: u32)
    ensures
        r as int == clamp_tier(x as int),
{
    if x > 1023 {
        1023
    } else {
        x as u32
    }
}

/// The packed specificity of a finished selector tree.
fn specificity<Impl: SelectorImpl>(c: &ComplexSelector<Impl>, has_pseudo_element: bool) -> (r:
    Specificity)
    ensures
        r == spec_selector_specificity(complex_model(*c), has_pseudo_element),
{
    let t = complex_counts_exec(c);
    let e = if has_pseudo_element {
        sat_add_exec(t.element, 1)
    } else {
        t.element
    };
    let unp = crate::specificity::UnpackedSpecificity::new(
        clamp_counter(t.id),
        clamp_counter(t.class_like),
        clamp_counter(e),
    );
    let packed = Specificity::from(unp);
    proof {
        assert(packed_of(
            clamp_tier(t.id as int),
            clamp_tier(t.class_like as int),
            clamp_tier(e as int),
        ) == packed_of(t.id as int, t.class_like as int, e as int));
        lemma_packed_from_eq(
            clamp_tier(t.id as int),
            clamp_tier(t.class_like as int),
            clamp_tier(e as int),
            t.id as int,
            t.class_like as int,
            e as int,
        );
    }
    packed
}

/// One whole selector: a complex selector and an optional pseudo-element,
/// at least one of them non-trivial, with its specificity computed.
fn parse_selector<Impl: SelectorImpl>(ctx: &ParserContext, toks: &Vec<CssTok>, i: usize) -> (r:
    Parsed<Selector<Impl>>)
    requires
        i <= toks@.len(),
    ensures
        ({
            let s = spec_selector::<Impl>(ctx.ctx_view(), toks@, i as int);
            match r {
                Parsed::Found(sel, k) => k <= toks@.len() && s == SpecParsed::Found(
                    selector_model(sel),
                    k as int,
                ),
                Parsed::Absent => s is Absent,
                Parsed::Invalid => s is Invalid,
            }
        }),
{
    match parse_complex_selector::<Impl>(ctx, toks, i) {
        Parsed::Invalid => Parsed::Invalid,
        Parsed::Absent => Parsed::Invalid,
        Parsed::Found(c, j) => {
            match parse_pseudo_element::<Impl>(ctx, toks, j) {
                PPseudo::Invalid => Parsed::Invalid,
                PPseudo::Found(pe, k) => {
                    proof {
                        lemma_simples_model(c.compound_selector@);
                    }
                    if c.compound_selector.len() != 0 || pe.is_some() {
                        let sp = specificity(&c, pe.is_some());
                        Parsed::Found(
                            Selector {
                                complex_selector: std::sync::Arc::new(c),
                                pseudo_element: pe,
                                specificity: sp,
                            },
                            k,
                        )
                    } else {
                        Parsed::Invalid
                    }
                },
            }
        },
    }
}

/// The comma-separated selectors of a list, appended to `acc`.
fn parse_selector_list_items<Impl: SelectorImpl>(
    ctx: &ParserContext,
    toks: &Vec<CssTok>,
    i: usize,
    acc: &mut Vec<Selector<Impl>>,
) -> (ok: bool)
    requires
        i <= toks@.len(),
    ensures
        ({
            let s = spec_selector_list_items::<Impl>(
                ctx.ctx_view(),
                toks@,
                i as int,
                selectors_model(old(acc)@),
            );
            if ok {
                s == SpecRes::Good(selectors_model(final (acc)@))
            } else {
                s is Bad
            }
        }),
    decreases toks@.len() - i,
{
    match parse_selector::<Impl>(ctx, toks, i) {
        Parsed::Invalid => false,
        Parsed::Absent => false,
        Parsed::Found(sel, j) => {
            let j2 = skip_ws_exec(toks, j);
            proof {
                lemma_selectors_model_push(acc@, sel);
            }
            if j2 >= toks.len() {
                acc.push(sel);
                true
            } else {
                match &toks[j2] {
                    CssTok::Comma => {
                        if i < j2 + 1 {
                            acc.push(sel);
                            parse_selector_list_items::<Impl>(ctx, toks, j2 + 1, acc)
                        } else {
                            false
                        }
                    },
                    _ => false,
                }
            }
        },
    }
}

/// Parse a comma-separated selector list from a token stream. One invalid
/// selector invalidates the whole list.
pub fn parse_selector_list<Impl: SelectorImpl>(context: &ParserContext, input: &Vec<CssTok>) -> (r:
    Result<Vec<Selector<Impl>>, ()>)
    ensures
        match r {
            Ok(sels) => spec_selector_list::<Impl>(context.ctx_view(), input@) == SpecRes::Good(
                selectors_model(sels@),
            ),
            Err(_) => spec_selector_list::<Impl>(context.ctx_view(), input@) is Bad,
        },
{
    let mut acc: Vec<Selector<Impl>> = Vec::new();
    proof {
        assert(selectors_model(acc@) =~= Seq::<SelectorV<Impl>>::empty());
    }
    if parse_selector_list_items::<Impl>(context, input, 0, &mut acc) {
        Ok(acc)
    } else {
        Err(())
    }
}

/// Parse a selector list from source text, in an author-origin context
/// with no namespaces declared. The external tokenizer turns the text
/// into the token stream `toks_of(input@)`; the grammar decides on those
/// tokens alone.
pub fn parse_author_origin_selector_list_from_str<Impl: SelectorImpl>(input: &str) -> (r: Result<
    Vec<Selector<Impl>>,
    (),
>)
    ensures
        match r {
            Ok(sels) => spec_selector_list::<Impl>(
                crate::context::author_origin_ctx(),
                toks_of(input@),
            ) == SpecRes::Good(selectors_model(sels@)),
            Err(_) => spec_selector_list::<Impl>(
                crate::context::author_origin_ctx(),
                toks_of(input@),
            ) is Bad,
        },
{
    let context = ParserContext::new();
    let toks = tokenize(input);
    proof {
        assert(context.ctx_view() == crate::context::author_origin_ctx());
    }
    parse_selector_list::<Impl>(&context, &toks)
}

} // verus!
