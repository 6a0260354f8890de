//! Parsing of CSS selector lists into immutable, shareable selector
//! trees, with each selector's packed three-tier specificity computed as
//! the tree is built. The grammar is defined as specification functions
//! over a token stream and the executable parser is verified against
//! them; tokenization and the An+B micro-syntax are entrusted to the
//! `cssparser` crate. A bounds tracker over specificities serves callers
//! that assemble selectors incrementally.

use vstd::prelude::*;

pub mod context;
pub mod dummy;
pub mod grammar;
pub mod parser;
pub mod specificity;
pub mod strutil;
pub mod tokenize;
pub mod tokens;
pub mod types;

pub use context::NamespaceMap;
pub use dummy::DummySelectorImpl;
pub use dummy::PseudoClass;
pub use dummy::PseudoElement;
pub use context::ParserContext;
pub use types::AttrSelector;
pub use types::CaseSensitivity;
pub use types::Combinator;
pub use types::ComplexSelector;
pub use types::LocalName;
pub use types::NamespaceConstraint;
pub use types::NoExtension;
pub use types::NoPseudo;
pub use types::Selector;
pub use types::SelectorImpl;
pub use types::SimpleSelector;
pub use parser::is_legacy_pseudo_element;
pub use parser::parse_author_origin_selector_list_from_str;
pub use parser::parse_selector_list;
pub use tokenize::tokenize;
pub use specificity::Bounds;
pub use specificity::Specificity;
pub use specificity::UnpackedSpecificity;
pub use tokens::CssTok;

verus! {

} // verus!
