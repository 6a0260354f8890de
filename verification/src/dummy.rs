use vstd::prelude::*;

use crate::context::CtxV;
use crate::context::ParserContext;
use crate::strutil::eq_ignore_ascii_case;
use crate::strutil::lower_seq;
use crate::types::SelectorImpl;

verus! {

/// The host pseudo-classes of the minimal embedding below.
#[derive(Clone, Debug, Eq, Hash, PartialEq, Structural)]
pub enum PseudoClass {
    ServoNonZeroBorder,
}

/// The host pseudo-elements of the minimal embedding below.
#[derive(Clone, Debug, Eq, Hash, PartialEq, Structural)]
pub enum PseudoElement {
    Before,
    After,
}

/// A minimal host embedding: one vendor pseudo-class, recognised only in
/// user-agent stylesheets, and the `before` and `after` pseudo-elements.
/// The test suite parses against it.
#[derive(Clone, Debug, Eq, Hash, PartialEq, Structural)]
pub struct DummySelectorImpl;

impl SelectorImpl for DummySelectorImpl {
    type NonTSPseudoClass = PseudoClass;

    type PseudoElement = PseudoElement;

    open spec fn spec_non_ts_pseudo_class(context: CtxV, name: Seq<char>) -> Option<PseudoClass> {
        if context.in_user_agent_stylesheet && lower_seq(name) == lower_seq(
            "-servo-nonzero-border"@,
        ) {
            Some(PseudoClass::ServoNonZeroBorder)
        } else {
            None
        }
    }

    open spec fn spec_pseudo_element(context: CtxV, name: Seq<char>) -> Option<PseudoElement> {
        if lower_seq(name) == lower_seq("before"@) {
            Some(PseudoElement::Before)
        } else if lower_seq(name) == lower_seq("after"@) {
            Some(PseudoElement::After)
        } else {
            None
        }
    }

    fn parse_non_ts_pseudo_class(context: &ParserContext, name: &str) -> (r: Result<
        PseudoClass,
        (),
    >) {
        if eq_ignore_ascii_case(name, "-servo-nonzero-border") {
            if context.in_user_agent_stylesheet {
                Ok(PseudoClass::ServoNonZeroBorder)
            } else {
                Err(())
            }
        } else {
            Err(())
        }
    }

    fn parse_pseudo_element(context: &ParserContext, name: &str) -> (r: Result<PseudoElement, ()>) {
        if eq_ignore_ascii_case(name, "before") {
            Ok(PseudoElement::Before)
        } else if eq_ignore_ascii_case(name, "after") {
            Ok(PseudoElement::After)
        } else {
            Err(())
        }
    }
}

} // verus!
