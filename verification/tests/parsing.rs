use std::sync::Arc;

use selectors::CaseSensitivity;
use selectors::Combinator;
use selectors::ComplexSelector;
use selectors::CssTok;
use selectors::DummySelectorImpl;
use selectors::AttrSelector;
use selectors::LocalName;
use selectors::NamespaceConstraint;
use selectors::ParserContext;
use selectors::PseudoElement;
use selectors::Selector;
use selectors::SimpleSelector;
use selectors::Specificity;
use selectors::UnpackedSpecificity;
use selectors::NoExtension;
use selectors::is_legacy_pseudo_element;
use selectors::parse_author_origin_selector_list_from_str;
use selectors::parse_selector_list;
use selectors::tokenize;

fn parse(input: &str) -> Result<Vec<Selector<DummySelectorImpl>>, ()> {
    parse_author_origin_selector_list_from_str::<DummySelectorImpl>(input)
}

fn parse_ns(input: &str, context: &ParserContext) -> Result<Vec<Selector<DummySelectorImpl>>, ()> {
    parse_selector_list::<DummySelectorImpl>(context, &tokenize(input))
}

fn specificity(id: u32, class_like: u32, element: u32) -> Specificity {
    UnpackedSpecificity::new(id, class_like, element).into()
}

fn atom(s: &str) -> String {
    s.to_owned()
}

#[test]
fn test_empty() {
    let list = parse_author_origin_selector_list_from_str::<DummySelectorImpl>(":empty");
    assert!(list.is_ok());
}

#[test]
fn test_parsing() {
    assert_eq!(parse(""), Err(()));
    assert_eq!(
        parse("EeÉ"),
        Ok(vec![Selector {
            complex_selector: Arc::new(ComplexSelector {
                compound_selector: vec![SimpleSelector::LocalName(LocalName {
                    name: atom("EeÉ"),
                    lower_name: atom("eeÉ"),
                })],
                next: None,
            }),
            pseudo_element: None,
            specificity: specificity(0, 0, 1),
        }])
    );
    assert_eq!(
        parse(".foo"),
        Ok(vec![Selector {
            complex_selector: Arc::new(ComplexSelector {
                compound_selector: vec![SimpleSelector::Class(atom("foo"))],
                next: None,
            }),
            pseudo_element: None,
            specificity: specificity(0, 1, 0),
        }])
    );
    assert_eq!(
        parse("#bar"),
        Ok(vec![Selector {
            complex_selector: Arc::new(ComplexSelector {
                compound_selector: vec![SimpleSelector::ID(atom("bar"))],
                next: None,
            }),
            pseudo_element: None,
            specificity: specificity(1, 0, 0),
        }])
    );
    assert_eq!(
        parse("e.foo#bar"),
        Ok(vec![Selector {
            complex_selector: Arc::new(ComplexSelector {
                compound_selector: vec![
                    SimpleSelector::LocalName(LocalName { name: atom("e"), lower_name: atom("e") }),
                    SimpleSelector::Class(atom("foo")),
                    SimpleSelector::ID(atom("bar")),
                ],
                next: None,
            }),
            pseudo_element: None,
            specificity: specificity(1, 1, 1),
        }])
    );
    assert_eq!(
        parse("e.foo #bar"),
        Ok(vec![Selector {
            complex_selector: Arc::new(ComplexSelector {
                compound_selector: vec![SimpleSelector::ID(atom("bar"))],
                next: Some((
                    Arc::new(ComplexSelector {
                        compound_selector: vec![
                            SimpleSelector::LocalName(LocalName {
                                name: atom("e"),
                                lower_name: atom("e"),
                            }),
                            SimpleSelector::Class(atom("foo")),
                        ],
                        next: None,
                    }),
                    Combinator::Descendant,
                )),
            }),
            pseudo_element: None,
            specificity: specificity(1, 1, 1),
        }])
    );
    // The default namespace does not apply to attribute selectors.
    let mut context = ParserContext::new();
    assert_eq!(
        parse_ns("[Foo]", &context),
        Ok(vec![Selector {
            complex_selector: Arc::new(ComplexSelector {
                compound_selector: vec![SimpleSelector::AttrExists(AttrSelector {
                    name: atom("Foo"),
                    lower_name: atom("foo"),
                    namespace: NamespaceConstraint::Specific(atom("")),
                })],
                next: None,
            }),
            pseudo_element: None,
            specificity: specificity(0, 1, 0),
        }])
    );
    context.default_namespace = Some(atom("http://www.w3.org/1998/Math/MathML"));
    assert_eq!(
        parse_ns("[Foo]", &context),
        Ok(vec![Selector {
            complex_selector: Arc::new(ComplexSelector {
                compound_selector: vec![SimpleSelector::AttrExists(AttrSelector {
                    name: atom("Foo"),
                    lower_name: atom("foo"),
                    namespace: NamespaceConstraint::Specific(atom("")),
                })],
                next: None,
            }),
            pseudo_element: None,
            specificity: specificity(0, 1, 0),
        }])
    );
    // The default namespace does apply to type selectors.
    assert_eq!(
        parse_ns("e", &context),
        Ok(vec![Selector {
            complex_selector: Arc::new(ComplexSelector {
                compound_selector: vec![
                    SimpleSelector::Namespace(atom("http://www.w3.org/1998/Math/MathML")),
                    SimpleSelector::LocalName(LocalName { name: atom("e"), lower_name: atom("e") }),
                ],
                next: None,
            }),
            pseudo_element: None,
            specificity: specificity(0, 0, 1),
        }])
    );
    assert_eq!(
        parse("[attr|=\"foo\"]"),
        Ok(vec![Selector {
            complex_selector: Arc::new(ComplexSelector {
                compound_selector: vec![SimpleSelector::AttrDashMatch(
                    AttrSelector {
                        name: atom("attr"),
                        lower_name: atom("attr"),
                        namespace: NamespaceConstraint::Specific(atom("")),
                    },
                    "foo".to_owned(),
                    "foo-".to_owned(),
                )],
                next: None,
            }),
            pseudo_element: None,
            specificity: specificity(0, 1, 0),
        }])
    );
    assert_eq!(
        parse("::before"),
        Ok(vec![Selector {
            complex_selector: Arc::new(ComplexSelector { compound_selector: vec![], next: None }),
            pseudo_element: Some(PseudoElement::Before),
            specificity: specificity(0, 0, 1),
        }])
    );
    assert_eq!(
        parse("div :after"),
        Ok(vec![Selector {
            complex_selector: Arc::new(ComplexSelector {
                compound_selector: vec![],
                next: Some((
                    Arc::new(ComplexSelector {
                        compound_selector: vec![SimpleSelector::LocalName(LocalName {
                            name: atom("div"),
                            lower_name: atom("div"),
                        })],
                        next: None,
                    }),
                    Combinator::Descendant,
                )),
            }),
            pseudo_element: Some(PseudoElement::After),
            specificity: specificity(0, 0, 2),
        }])
    );
    assert_eq!(
        parse("#d1 > .ok"),
        Ok(vec![Selector {
            complex_selector: Arc::new(ComplexSelector {
                compound_selector: vec![SimpleSelector::Class(atom("ok"))],
                next: Some((
                    Arc::new(ComplexSelector {
                        compound_selector: vec![SimpleSelector::ID(atom("d1"))],
                        next: None,
                    }),
                    Combinator::Child,
                )),
            }),
            pseudo_element: None,
            specificity: specificity(1, 1, 0),
        }])
    );
    assert_eq!(
        parse(":not(.babybel, .provel)"),
        Ok(vec![Selector {
            complex_selector: Arc::new(ComplexSelector {
                compound_selector: vec![SimpleSelector::Negation(vec![
                    Arc::new(ComplexSelector {
                        compound_selector: vec![SimpleSelector::Class(atom("babybel"))],
                        next: None,
                    }),
                    Arc::new(ComplexSelector {
                        compound_selector: vec![SimpleSelector::Class(atom("provel"))],
                        next: None,
                    }),
                ])],
                next: None,
            }),
            pseudo_element: None,
            specificity: specificity(0, 1, 0),
        }])
    );
}

#[test]
fn test_structural_pseudo_class() {
    assert_eq!(
        parse(":empty"),
        Ok(vec![Selector {
            complex_selector: Arc::new(ComplexSelector {
                compound_selector: vec![SimpleSelector::Empty],
                next: None,
            }),
            pseudo_element: None,
            specificity: specificity(0, 1, 0),
        }])
    );
    assert!(parse(":FIRST-CHILD").is_ok());
    assert!(parse(":no-such-pseudo-class").is_err());
}

#[test]
fn test_nth_pseudo_classes() {
    assert_eq!(
        parse(":nth-child(2n+1)"),
        Ok(vec![Selector {
            complex_selector: Arc::new(ComplexSelector {
                compound_selector: vec![SimpleSelector::NthChild(2, 1)],
                next: None,
            }),
            pseudo_element: None,
            specificity: specificity(0, 1, 0),
        }])
    );
    assert_eq!(
        parse(":nth-last-of-type(odd)"),
        Ok(vec![Selector {
            complex_selector: Arc::new(ComplexSelector {
                compound_selector: vec![SimpleSelector::NthLastOfType(2, 1)],
                next: None,
            }),
            pseudo_element: None,
            specificity: specificity(0, 1, 0),
        }])
    );
    assert!(parse(":nth-child(2n+1 junk)").is_err());
    assert!(parse(":nth-child()").is_err());
}

#[test]
fn test_attribute_operators() {
    assert_eq!(
        parse("[a~=\"x\"]"),
        Ok(vec![Selector {
            complex_selector: Arc::new(ComplexSelector {
                compound_selector: vec![SimpleSelector::AttrIncludes(
                    AttrSelector {
                        name: atom("a"),
                        lower_name: atom("a"),
                        namespace: NamespaceConstraint::Specific(atom("")),
                    },
                    "x".to_owned(),
                )],
                next: None,
            }),
            pseudo_element: None,
            specificity: specificity(0, 1, 0),
        }])
    );
    let eq_sensitive = parse("[a=\"b\"]").unwrap();
    match &eq_sensitive[0].complex_selector.compound_selector[0] {
        SimpleSelector::AttrEqual(_, v, cs) => {
            assert_eq!(v, "b");
            assert_eq!(*cs, CaseSensitivity::CaseSensitive);
        },
        other => panic!("unexpected selector: {:?}", other),
    }
    let eq_insensitive = parse("[a=\"b\" i]").unwrap();
    match &eq_insensitive[0].complex_selector.compound_selector[0] {
        SimpleSelector::AttrEqual(_, _, cs) => {
            assert_eq!(*cs, CaseSensitivity::CaseInsensitive);
        },
        other => panic!("unexpected selector: {:?}", other),
    }
    assert!(parse("[a=\"b\" x]").is_err());
    assert!(parse("[a @ b]").is_err());
}

#[test]
fn test_negation_takes_maximum_of_alternatives() {
    let parsed = parse(":not(#a, .b)").unwrap();
    assert_eq!(parsed[0].specificity, specificity(1, 0, 0));
    let parsed = parse(":not(.b, e)").unwrap();
    assert_eq!(parsed[0].specificity, specificity(0, 1, 0));
}

#[test]
fn test_host_pseudo_class_needs_user_agent_stylesheet() {
    let mut context = ParserContext::new();
    assert!(parse_ns(":-servo-nonzero-border", &context).is_err());
    context.in_user_agent_stylesheet = true;
    let parsed = parse_ns(":-servo-nonzero-border", &context).unwrap();
    assert_eq!(parsed[0].specificity, specificity(0, 1, 0));
}

#[test]
fn test_legacy_pseudo_element_names() {
    assert!(is_legacy_pseudo_element("before"));
    assert!(is_legacy_pseudo_element("BEFORE"));
    assert!(is_legacy_pseudo_element("first-letter"));
    assert!(!is_legacy_pseudo_element("hover"));
    let parsed = parse(":before").unwrap();
    assert_eq!(parsed[0].pseudo_element, Some(PseudoElement::Before));
    assert_eq!(parsed[0].specificity, specificity(0, 0, 1));
    assert!(parse(":first-line").is_err());
}

#[test]
fn test_selector_list_and_errors() {
    let parsed = parse("div, .a").unwrap();
    assert_eq!(parsed.len(), 2);
    assert_eq!(parsed[0].specificity, specificity(0, 0, 1));
    assert_eq!(parsed[1].specificity, specificity(0, 1, 0));
    assert_eq!(parse("div, .."), Err(()));
    assert_eq!(parse(".."), Err(()));
    assert_eq!(parse("div >"), Err(()));
    assert_eq!(parse(","), Err(()));
    assert_eq!(parse("ns|e"), Err(()));
}

#[test]
fn test_tokenize_shapes() {
    assert_eq!(
        tokenize("a, .b"),
        vec![
            CssTok::Ident(atom("a")),
            CssTok::Comma,
            CssTok::Ws,
            CssTok::Delim('.'),
            CssTok::Ident(atom("b")),
        ]
    );
    let toks = tokenize(":not(.x)");
    assert_eq!(toks[0], CssTok::Colon);
    match &toks[1] {
        CssTok::Func(name, raw, args) => {
            assert_eq!(name, "not");
            assert_eq!(raw, ".x");
            assert_eq!(args, &vec![CssTok::Delim('.'), CssTok::Ident(atom("x"))]);
        },
        other => panic!("unexpected token: {:?}", other),
    }
}

#[test]
fn test_namespace_prefixes() {
    let mut context = ParserContext::new();
    context
        .namespace_prefixes
        .insert("svg".to_owned(), "http://www.w3.org/2000/svg".to_owned());
    assert_eq!(
        parse_ns("svg|circle", &context),
        Ok(vec![Selector {
            complex_selector: Arc::new(ComplexSelector {
                compound_selector: vec![
                    SimpleSelector::Namespace(atom("http://www.w3.org/2000/svg")),
                    SimpleSelector::LocalName(LocalName {
                        name: atom("circle"),
                        lower_name: atom("circle"),
                    }),
                ],
                next: None,
            }),
            pseudo_element: None,
            specificity: specificity(0, 0, 1),
        }])
    );
    // An undeclared prefix is a hard failure.
    assert!(parse_ns("undeclared|e", &context).is_err());
    // `|e` asks for no namespace explicitly.
    let parsed = parse_ns("|e", &context).unwrap();
    assert_eq!(
        parsed[0].complex_selector.compound_selector[0],
        SimpleSelector::Namespace(atom(""))
    );
}

#[test]
fn test_universal_selector_alone_is_rejected() {
    // A lone universal selector yields an empty compound, which is legal
    // only when a pseudo-element follows.
    assert!(parse("*").is_err());
    assert!(parse("*::before").is_ok());
    assert!(parse("*|e").is_ok());
}

#[test]
fn test_sibling_combinators() {
    assert_eq!(
        parse("a + b"),
        Ok(vec![Selector {
            complex_selector: Arc::new(ComplexSelector {
                compound_selector: vec![SimpleSelector::LocalName(LocalName {
                    name: atom("b"),
                    lower_name: atom("b"),
                })],
                next: Some((
                    Arc::new(ComplexSelector {
                        compound_selector: vec![SimpleSelector::LocalName(LocalName {
                            name: atom("a"),
                            lower_name: atom("a"),
                        })],
                        next: None,
                    }),
                    Combinator::NextSibling,
                )),
            }),
            pseudo_element: None,
            specificity: specificity(0, 0, 2),
        }])
    );
    let later = parse("a~b").unwrap();
    match &later[0].complex_selector.next {
        Some((_, comb)) => assert_eq!(*comb, Combinator::LaterSibling),
        None => panic!("expected a combinator"),
    }
}

#[test]
fn test_negation_of_complex_selector() {
    let parsed = parse(":not(e.foo > #bar)").unwrap();
    assert_eq!(parsed[0].specificity, specificity(1, 1, 1));
    match &parsed[0].complex_selector.compound_selector[0] {
        SimpleSelector::Negation(alts) => {
            assert_eq!(alts.len(), 1);
            assert_eq!(alts[0].compound_selector, vec![SimpleSelector::ID(atom("bar"))]);
            match &alts[0].next {
                Some((left, comb)) => {
                    assert_eq!(*comb, Combinator::Child);
                    assert_eq!(left.compound_selector.len(), 2);
                },
                None => panic!("expected a combinator"),
            }
        },
        other => panic!("unexpected selector: {:?}", other),
    }
}

#[test]
fn test_selectors_clone_and_share() {
    let parsed = parse(":not(.babybel, .provel)::before").unwrap();
    let copy = parsed[0].clone();
    assert_eq!(copy, parsed[0]);
    // The clone shares the tree rather than rebuilding it.
    assert!(Arc::ptr_eq(&copy.complex_selector, &parsed[0].complex_selector));
    let node = parse("e.foo #bar").unwrap()[0].complex_selector.as_ref().clone();
    assert_eq!(&node, parse("e.foo #bar").unwrap()[0].complex_selector.as_ref());
    let simple = SimpleSelector::<DummySelectorImpl>::Class(atom("x"));
    assert_eq!(simple.clone(), simple);
}

#[test]
fn test_unextended_host_recognises_nothing() {
    let ok = parse_author_origin_selector_list_from_str::<NoExtension>("div.a > #b");
    assert!(ok.is_ok());
    assert!(parse_author_origin_selector_list_from_str::<NoExtension>("::before").is_err());
    assert!(parse_author_origin_selector_list_from_str::<NoExtension>(":before").is_err());
    assert!(parse_author_origin_selector_list_from_str::<NoExtension>(":hover").is_err());
}
