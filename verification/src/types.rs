use vstd::prelude::*;

use crate::context::CtxV;
use crate::context::ParserContext;
use crate::specificity::Specificity;

verus! {

broadcast use
    vstd::std_specs::vec::group_vec_axioms,
    vstd::seq::axiom_seq_index_decreases,
    vstd::seq::axiom_seq_subrange_decreases,
    vstd::seq::axiom_seq_subrange_len,
;

/// The capability contract a host embeds the parser with: the host supplies
/// the types of its own pseudo-classes and pseudo-elements and the two
/// resolvers for them. Each resolver's behaviour is fixed by a spec
/// function of the implementation, which the parser's contracts speak of.
pub trait SelectorImpl: Sized {
    /// Non-tree-structural pseudo-classes defined by the host.
    type NonTSPseudoClass: Clone + PartialEq + Eq + core::fmt::Debug + core::hash::Hash;

    /// Pseudo-elements recognised by the host.
    type PseudoElement: Clone + PartialEq + Eq + core::fmt::Debug + core::hash::Hash;

    /// Which pseudo-class, if any, the host resolves `name` to under the
    /// given context.
    spec fn spec_non_ts_pseudo_class(context: CtxV, name: Seq<char>) -> Option<
        Self::NonTSPseudoClass,
    >;

    /// Which pseudo-element, if any, the host resolves `name` to under the
    /// given context.
    spec fn spec_pseudo_element(context: CtxV, name: Seq<char>) -> Option<Self::PseudoElement>;

    /// Resolve a non-tree-structural pseudo-class name.
    fn parse_non_ts_pseudo_class(context: &ParserContext, name: &str) -> (r: Result<
        Self::NonTSPseudoClass,
        (),
    >)
        ensures
            match r {
                Ok(pc) => Self::spec_non_ts_pseudo_class(context.ctx_view(), name@) == Some(pc),
                Err(_) => Self::spec_non_ts_pseudo_class(context.ctx_view(), name@) is None,
            },
    ;

    /// Resolve a pseudo-element name.
    fn parse_pseudo_element(context: &ParserContext, name: &str) -> (r: Result<
        Self::PseudoElement,
        (),
    >)
        ensures
            match r {
                Ok(pe) => Self::spec_pseudo_element(context.ctx_view(), name@) == Some(pe),
                Err(_) => Self::spec_pseudo_element(context.ctx_view(), name@) is None,
            },
    ;
}

/// The structural relationship joining two compound selectors.
#[derive(Clone, Copy, Debug, Eq, Hash, PartialEq, Structural)]
pub enum Combinator {
    /// `>`
    Child,
    /// whitespace
    Descendant,
    /// `+`
    NextSibling,
    /// `~`
    LaterSibling,
}

/// Whether an `[attr=value]` comparison is case-sensitive.
#[derive(Clone, Copy, Debug, Eq, Hash, PartialEq, Structural)]
pub enum CaseSensitivity {
    CaseSensitive,
    CaseInsensitive,
}

/// A type selector's name, kept both as written and ASCII-lower-cased.
#[derive(Clone, Debug, Eq, Hash, PartialEq)]
pub struct LocalName {
    pub name: String,
    pub lower_name: String,
}

/// The namespace constraint of an attribute selector.
#[derive(Clone, Debug, Eq, Hash, PartialEq)]
pub enum NamespaceConstraint {
    Any,
    Specific(String),
}

/// An attribute selector's name (as written and lower-cased) and its
/// namespace constraint.
#[derive(Clone, Debug, Eq, Hash, PartialEq)]
pub struct AttrSelector {
    pub name: String,
    pub lower_name: String,
    pub namespace: NamespaceConstraint,
}

/// One atomic test of a compound selector.
#[derive(Debug, Eq, Hash, PartialEq)]
#[verifier::reject_recursive_types(Impl)]
pub enum SimpleSelector<Impl: SelectorImpl> {
    ID(String),
    Class(String),
    LocalName(LocalName),
    Namespace(String),
    /// `[foo]`
    AttrExists(AttrSelector),
    /// `[foo=bar]`
    AttrEqual(AttrSelector, String, CaseSensitivity),
    /// `[foo~=bar]`
    AttrIncludes(AttrSelector, String),
    /// `[foo|=bar]`; the second string is the first with `-` appended.
    AttrDashMatch(AttrSelector, String, String),
    /// `[foo^=bar]`
    AttrPrefixMatch(AttrSelector, String),
    /// `[foo*=bar]`
    AttrSubstringMatch(AttrSelector, String),
    /// `[foo$=bar]`
    AttrSuffixMatch(AttrSelector, String),
    /// `:not(...)`, holding the shared alternatives.
    Negation(Vec<std::sync::Arc<ComplexSelector<Impl>>>),
    FirstChild,
    LastChild,
    OnlyChild,
    Root,
    Empty,
    NthChild(i32, i32),
    NthLastChild(i32, i32),
    NthOfType(i32, i32),
    NthLastOfType(i32, i32),
    FirstOfType,
    LastOfType,
    OnlyOfType,
    /// A host-defined pseudo-class.
    NonTSPseudoClass(Impl::NonTSPseudoClass),
}

/// A chain of compound selectors joined by combinators. `next` links to
/// the node structurally to the left in the source text; the chain is
/// built rightmost-first and is immutable and shareable once built.
#[derive(Debug, Eq, Hash, PartialEq)]
#[verifier::reject_recursive_types(Impl)]
pub struct ComplexSelector<Impl: SelectorImpl> {
    pub compound_selector: Vec<SimpleSelector<Impl>>,
    pub next: Option<(std::sync::Arc<ComplexSelector<Impl>>, Combinator)>,
}

/// One fully parsed selector: its complex-selector tree, its optional
/// pseudo-element, and its packed specificity.
#[derive(Debug, Eq, Hash, PartialEq)]
#[verifier::reject_recursive_types(Impl)]
pub struct Selector<Impl: SelectorImpl> {
    pub complex_selector: std::sync::Arc<ComplexSelector<Impl>>,
    pub pseudo_element: Option<Impl::PseudoElement>,
    pub specificity: Specificity,
}

/// The pseudo-class and pseudo-element type of a host that does not
/// extend the grammar; no value of it is ever produced.
#[derive(Clone, Copy, Debug, Eq, Hash, PartialEq, Structural)]
pub struct NoPseudo;

/// A host that leaves the grammar unextended: every host pseudo-class
/// and pseudo-element name is unrecognised, whatever the context.
#[derive(Clone, Copy, Debug, Eq, Hash, PartialEq, Structural)]
pub struct NoExtension;

impl SelectorImpl for NoExtension {
    type NonTSPseudoClass = NoPseudo;

    type PseudoElement = NoPseudo;

    open spec fn spec_non_ts_pseudo_class(context: CtxV, name: Seq<char>) -> Option<NoPseudo> {
        None
    }

    open spec fn spec_pseudo_element(context: CtxV, name: Seq<char>) -> Option<NoPseudo> {
        None
    }

    fn parse_non_ts_pseudo_class(_context: &ParserContext, _name: &str) -> (r: Result<
        NoPseudo,
        (),
    >) {
        Err(())
    }

    fn parse_pseudo_element(_context: &ParserContext, _name: &str) -> (r: Result<NoPseudo, ()>) {
        Err(())
    }
}

/// Relies on Arc::clone: the clone is the same shared value.
#[verifier::external_body]
fn arc_clone<T>(a: &std::sync::Arc<T>) -> (r: std::sync::Arc<T>)
    ensures
        r == *a,
{
    a.clone()
}

impl<Impl: SelectorImpl> Clone for SimpleSelector<Impl> {
    /// A clone of a negation shares its alternatives.
    fn clone(&self) -> Self {
        match self {
            SimpleSelector::ID(v) => SimpleSelector::ID(v.clone()),
            SimpleSelector::Class(v) => SimpleSelector::Class(v.clone()),
            SimpleSelector::LocalName(n) => SimpleSelector::LocalName(n.clone()),
            SimpleSelector::Namespace(ns) => SimpleSelector::Namespace(ns.clone()),
            SimpleSelector::AttrExists(a) => SimpleSelector::AttrExists(a.clone()),
            SimpleSelector::AttrEqual(a, v, cs) => SimpleSelector::AttrEqual(
                a.clone(),
                v.clone(),
                *cs,
            ),
            SimpleSelector::AttrIncludes(a, v) => SimpleSelector::AttrIncludes(
                a.clone(),
                v.clone(),
            ),
            SimpleSelector::AttrDashMatch(a, v, d) => SimpleSelector::AttrDashMatch(
                a.clone(),
                v.clone(),
                d.clone(),
            ),
            SimpleSelector::AttrPrefixMatch(a, v) => SimpleSelector::AttrPrefixMatch(
                a.clone(),
                v.clone(),
            ),
            SimpleSelector::AttrSubstringMatch(a, v) => SimpleSelector::AttrSubstringMatch(
                a.clone(),
                v.clone(),
            ),
            SimpleSelector::AttrSuffixMatch(a, v) => SimpleSelector::AttrSuffixMatch(
                a.clone(),
                v.clone(),
            ),
            SimpleSelector::Negation(alts) => {
                let mut shared: Vec<std::sync::Arc<ComplexSelector<Impl>>> = Vec::new();
                let mut i: usize = 0;
                while i < alts.len()
                    decreases alts.len() - i,
                {
                    shared.push(arc_clone(&alts[i]));
                    i = i + 1;
                }
                SimpleSelector::Negation(shared)
            },
            SimpleSelector::FirstChild => SimpleSelector::FirstChild,
            SimpleSelector::LastChild => SimpleSelector::LastChild,
            SimpleSelector::OnlyChild => SimpleSelector::OnlyChild,
            SimpleSelector::Root => SimpleSelector::Root,
            SimpleSelector::Empty => SimpleSelector::Empty,
            SimpleSelector::NthChild(a, b) => SimpleSelector::NthChild(*a, *b),
            SimpleSelector::NthLastChild(a, b) => SimpleSelector::NthLastChild(*a, *b),
            SimpleSelector::NthOfType(a, b) => SimpleSelector::NthOfType(*a, *b),
            SimpleSelector::NthLastOfType(a, b) => SimpleSelector::NthLastOfType(*a, *b),
            SimpleSelector::FirstOfType => SimpleSelector::FirstOfType,
            SimpleSelector::LastOfType => SimpleSelector::LastOfType,
            SimpleSelector::OnlyOfType => SimpleSelector::OnlyOfType,
            SimpleSelector::NonTSPseudoClass(pc) => SimpleSelector::NonTSPseudoClass(pc.clone()),
        }
    }
}

impl<Impl: SelectorImpl> Clone for ComplexSelector<Impl> {
    /// A clone of a chain node shares its parent link.
    fn clone(&self) -> Self {
        ComplexSelector {
            compound_selector: self.compound_selector.clone(),
            next: match &self.next {
                Some(pair) => Some((arc_clone(&pair.0), pair.1)),
                None => None,
            },
        }
    }
}

impl<Impl: SelectorImpl> Clone for Selector<Impl> {
    /// A clone of a selector shares its complex-selector tree.
    fn clone(&self) -> Self {
        Selector {
            complex_selector: arc_clone(&self.complex_selector),
            pseudo_element: self.pseudo_element.clone(),
            specificity: self.specificity,
        }
    }
}

/// The mathematical content of a `LocalName`.
pub struct LocalNameV {
    pub name: Seq<char>,
    pub lower_name: Seq<char>,
}

/// The mathematical content of a `NamespaceConstraint`.
pub enum NamespaceConstraintV {
    Any,
    Specific(Seq<char>),
}

/// The mathematical content of an `AttrSelector`.
pub struct AttrV {
    pub name: Seq<char>,
    pub lower_name: Seq<char>,
    pub namespace: NamespaceConstraintV,
}

/// The mathematical content of a `SimpleSelector`. Host pseudo-class and
/// pseudo-element values stand for themselves.
#[verifier::reject_recursive_types(Impl)]
pub enum SimpleSelV<Impl: SelectorImpl> {
    ID(Seq<char>),
    Class(Seq<char>),
    LocalName(LocalNameV),
    Namespace(Seq<char>),
    AttrExists(AttrV),
    AttrEqual(AttrV, Seq<char>, CaseSensitivity),
    AttrIncludes(AttrV, Seq<char>),
    AttrDashMatch(AttrV, Seq<char>, Seq<char>),
    AttrPrefixMatch(AttrV, Seq<char>),
    AttrSubstringMatch(AttrV, Seq<char>),
    AttrSuffixMatch(AttrV, Seq<char>),
    Negation(Seq<ComplexV<Impl>>),
    FirstChild,
    LastChild,
    OnlyChild,
    Root,
    Empty,
    NthChild(i32, i32),
    NthLastChild(i32, i32),
    NthOfType(i32, i32),
    NthLastOfType(i32, i32),
    FirstOfType,
    LastOfType,
    OnlyOfType,
    NonTSPseudoClass(Impl::NonTSPseudoClass),
}

/// The mathematical content of a `ComplexSelector`: the rightmost compound
/// and, walking leftward, each ancestor compound with the combinator that
/// joins it to the compound on its right.
#[verifier::reject_recursive_types(Impl)]
pub struct ComplexV<Impl: SelectorImpl> {
    pub rightmost: Seq<SimpleSelV<Impl>>,
    pub ancestors: Seq<(Combinator, Seq<SimpleSelV<Impl>>)>,
}

/// The mathematical content of a `Selector`.
#[verifier::reject_recursive_types(Impl)]
pub struct SelectorV<Impl: SelectorImpl> {
    pub complex_selector: ComplexV<Impl>,
    pub pseudo_element: Option<Impl::PseudoElement>,
    pub specificity: Specificity,
}

/// The content of a `NamespaceConstraint`.
pub open spec fn ns_constraint_model(n: NamespaceConstraint) -> NamespaceConstraintV {
    match n {
        NamespaceConstraint::Any => NamespaceConstraintV::Any,
        NamespaceConstraint::Specific(ns) => NamespaceConstraintV::Specific(ns@),
    }
}

/// The content of an `AttrSelector`.
pub open spec fn attr_model(a: AttrSelector) -> AttrV {
    AttrV { name: a.name@, lower_name: a.lower_name@, namespace: ns_constraint_model(a.namespace) }
}

/// The content of one simple selector.
pub open spec fn simple_model<Impl: SelectorImpl>(s: SimpleSelector<Impl>) -> SimpleSelV<Impl>
    decreases s,
{
    match s {
        SimpleSelector::ID(v) => SimpleSelV::ID(v@),
        SimpleSelector::Class(v) => SimpleSelV::Class(v@),
        SimpleSelector::LocalName(n) => SimpleSelV::LocalName(
            LocalNameV { name: n.name@, lower_name: n.lower_name@ },
        ),
        SimpleSelector::Namespace(ns) => SimpleSelV::Namespace(ns@),
        SimpleSelector::AttrExists(a) => SimpleSelV::AttrExists(attr_model(a)),
        SimpleSelector::AttrEqual(a, v, cs) => SimpleSelV::AttrEqual(attr_model(a), v@, cs),
        SimpleSelector::AttrIncludes(a, v) => SimpleSelV::AttrIncludes(attr_model(a), v@),
        SimpleSelector::AttrDashMatch(a, v, d) => SimpleSelV::AttrDashMatch(attr_model(a), v@, d@),
        SimpleSelector::AttrPrefixMatch(a, v) => SimpleSelV::AttrPrefixMatch(attr_model(a), v@),
        SimpleSelector::AttrSubstringMatch(a, v) => SimpleSelV::AttrSubstringMatch(
            attr_model(a),
            v@,
        ),
        SimpleSelector::AttrSuffixMatch(a, v) => SimpleSelV::AttrSuffixMatch(attr_model(a), v@),
        SimpleSelector::Negation(alts) => SimpleSelV::Negation(complexes_model(alts@)),
        SimpleSelector::FirstChild => SimpleSelV::FirstChild,
        SimpleSelector::LastChild => SimpleSelV::LastChild,
        SimpleSelector::OnlyChild => SimpleSelV::OnlyChild,
        SimpleSelector::Root => SimpleSelV::Root,
        SimpleSelector::Empty => SimpleSelV::Empty,
        SimpleSelector::NthChild(a, b) => SimpleSelV::NthChild(a, b),
        SimpleSelector::NthLastChild(a, b) => SimpleSelV::NthLastChild(a, b),
        SimpleSelector::NthOfType(a, b) => SimpleSelV::NthOfType(a, b),
        SimpleSelector::NthLastOfType(a, b) => SimpleSelV::NthLastOfType(a, b),
        SimpleSelector::FirstOfType => SimpleSelV::FirstOfType,
        SimpleSelector::LastOfType => SimpleSelV::LastOfType,
        SimpleSelector::OnlyOfType => SimpleSelV::OnlyOfType,
        SimpleSelector::NonTSPseudoClass(pc) => SimpleSelV::NonTSPseudoClass(pc),
    }
}

/// The content of a sequence of simple selectors.
pub open spec fn simples_model<Impl: SelectorImpl>(s: Seq<SimpleSelector<Impl>>) -> Seq<
    SimpleSelV<Impl>,
>
    decreases s,
{
    if s.len() == 0 {
        Seq::empty()
    } else {
        seq![simple_model(s[0])] + simples_model(s.drop_first())
    }
}

/// The content of a sequence of shared complex selectors.
pub open spec fn complexes_model<Impl: SelectorImpl>(
    s: Seq<std::sync::Arc<ComplexSelector<Impl>>>,
) -> Seq<ComplexV<Impl>>
    decreases s,
{
    if s.len() == 0 {
        Seq::empty()
    } else {
        seq![complex_model(*s[0])] + complexes_model(s.drop_first())
    }
}

/// The content of a sequence of simple selectors, elementwise.
pub proof fn lemma_simples_model<Impl: SelectorImpl>(s: Seq<SimpleSelector<Impl>>)
    ensures
        simples_model(s).len() == s.len(),
        forall|i: int| 0 <= i < s.len() ==> simples_model(s)[i] == simple_model(s[i]),
    decreases s,
{
    if s.len() > 0 {
        lemma_simples_model(s.drop_first());
    }
}

/// The content of a sequence of shared complex selectors, elementwise.
pub proof fn lemma_complexes_model<Impl: SelectorImpl>(
    s: Seq<std::sync::Arc<ComplexSelector<Impl>>>,
)
    ensures
        complexes_model(s).len() == s.len(),
        forall|i: int| 0 <= i < s.len() ==> complexes_model(s)[i] == complex_model(*s[i]),
    decreases s,
{
    if s.len() > 0 {
        lemma_complexes_model(s.drop_first());
    }
}

/// The content of a complex selector: the `next` chain flattened into the
/// sequence of ancestor compounds.
pub open spec fn complex_model<Impl: SelectorImpl>(c: ComplexSelector<Impl>) -> ComplexV<Impl>
    decreases c,
{
    match c.next {
        None => ComplexV { rightmost: simples_model(c.compound_selector@), ancestors: Seq::empty() },
        Some((parent, comb)) => {
            let pm = complex_model(*parent);
            ComplexV {
                rightmost: simples_model(c.compound_selector@),
                ancestors: seq![(comb, pm.rightmost)] + pm.ancestors,
            }
        },
    }
}

/// Appending a simple selector appends its content.
pub proof fn lemma_simples_model_push<Impl: SelectorImpl>(
    s: Seq<SimpleSelector<Impl>>,
    x: SimpleSelector<Impl>,
)
    ensures
        simples_model(s.push(x)) == simples_model(s).push(simple_model(x)),
    decreases s,
{
    if s.len() == 0 {
        assert(s.push(x).len() == 1);
        assert(s.push(x)[0] == x);
        assert(s.push(x).drop_first() =~= Seq::<SimpleSelector<Impl>>::empty());
        assert(simples_model(s.push(x)) == seq![simple_model(x)] + simples_model(
            Seq::<SimpleSelector<Impl>>::empty(),
        ));
        assert(simples_model(s.push(x)) =~= simples_model(s).push(simple_model(x)));
    } else {
        assert(s.push(x)[0] == s[0]);
        assert(s.push(x).drop_first() =~= s.drop_first().push(x));
        lemma_simples_model_push(s.drop_first(), x);
        assert(simples_model(s.push(x)) == seq![simple_model(s[0])] + simples_model(s.drop_first()).push(simple_model(x)));
        assert(seq![simple_model(s[0])] + simples_model(s.drop_first()).push(simple_model(x)) =~= (seq![simple_model(s[0])] + simples_model(s.drop_first())).push(simple_model(x)));
    }
}

/// Appending a shared complex selector appends its content.
pub proof fn lemma_complexes_model_push<Impl: SelectorImpl>(
    s: Seq<std::sync::Arc<ComplexSelector<Impl>>>,
    x: std::sync::Arc<ComplexSelector<Impl>>,
)
    ensures
        complexes_model(s.push(x)) == complexes_model(s).push(complex_model(*x)),
    decreases s,
{
    if s.len() == 0 {
        assert(s.push(x).len() == 1);
        assert(s.push(x)[0] == x);
        assert(s.push(x).drop_first() =~= Seq::<std::sync::Arc<ComplexSelector<Impl>>>::empty());
        assert(complexes_model(s.push(x)) == seq![complex_model(*x)] + complexes_model(
            Seq::<std::sync::Arc<ComplexSelector<Impl>>>::empty(),
        ));
        assert(complexes_model(s.push(x)) =~= complexes_model(s).push(complex_model(*x)));
    } else {
        assert(s.push(x)[0] == s[0]);
        assert(s.push(x).drop_first() =~= s.drop_first().push(x));
        lemma_complexes_model_push(s.drop_first(), x);
        assert(complexes_model(s.push(x)) == seq![complex_model(*s[0])] + complexes_model(s.drop_first()).push(complex_model(*x)));
        assert(seq![complex_model(*s[0])] + complexes_model(s.drop_first()).push(complex_model(*x)) =~= (seq![complex_model(*s[0])] + complexes_model(s.drop_first())).push(complex_model(*x)));
    }
}

/// The content of a sequence of selectors.
pub open spec fn selectors_model<Impl: SelectorImpl>(s: Seq<Selector<Impl>>) -> Seq<
    SelectorV<Impl>,
>
    decreases s,
{
    if s.len() == 0 {
        Seq::empty()
    } else {
        seq![selector_model(s[0])] + selectors_model(s.drop_first())
    }
}

/// Appending a selector appends its content.
pub proof fn lemma_selectors_model_push<Impl: SelectorImpl>(s: Seq<Selector<Impl>>, x: Selector<Impl>)
    ensures
        selectors_model(s.push(x)) == selectors_model(s).push(selector_model(x)),
    decreases s,
{
    if s.len() == 0 {
        assert(s.push(x).len() == 1);
        assert(s.push(x)[0] == x);
        assert(s.push(x).drop_first() =~= Seq::<Selector<Impl>>::empty());
        assert(selectors_model(s.push(x)) == seq![selector_model(x)] + selectors_model(
            Seq::<Selector<Impl>>::empty(),
        ));
        assert(selectors_model(s.push(x)) =~= selectors_model(s).push(selector_model(x)));
    } else {
        assert(s.push(x)[0] == s[0]);
        assert(s.push(x).drop_first() =~= s.drop_first().push(x));
        lemma_selectors_model_push(s.drop_first(), x);
        assert(selectors_model(s.push(x)) == seq![selector_model(s[0])] + selectors_model(s.drop_first()).push(selector_model(x)));
        assert(seq![selector_model(s[0])] + selectors_model(s.drop_first()).push(selector_model(x)) =~= (seq![selector_model(s[0])] + selectors_model(s.drop_first())).push(selector_model(x)));
    }
}

/// The content of a selector.
pub open spec fn selector_model<Impl: SelectorImpl>(s: Selector<Impl>) -> SelectorV<Impl> {
    SelectorV {
        complex_selector: complex_model(*s.complex_selector),
        pseudo_element: s.pseudo_element,
        specificity: s.specificity,
    }
}

} // verus!
