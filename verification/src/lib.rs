//! The style engine of a small web browser: the CSS object model, selector
//! matching, specificity, the cascade, CSS value and selector grammars on top
//! of a CSS tokenizer, the HTML legacy colour microsyntax, and the small state
//! machines that drive repainting of a page.

pub mod cascade;
pub mod collect;
pub mod crash;
pub mod cursor;
pub mod declarations;
pub mod dom;
pub mod error;
pub mod fontface;
pub mod fonts;
pub mod lengths;
pub mod page;
pub mod property_map;
pub mod selector_match;
pub mod rules;
pub mod selectors;
pub mod specificity;
pub mod style;
pub mod text;
pub mod syntax;
pub mod tokenizer;
pub mod urls;
pub mod util;
pub mod values;

use vstd::prelude::*;

verus! {
} // verus!
