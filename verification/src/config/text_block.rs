//! Reusable text snippets of the prompt manager.

use vstd::prelude::*;

verus! {

/// A reusable text snippet, grouped by a free-form category. The id is a
/// UUID held as its 128-bit value.
#[derive(Clone, Debug, PartialEq)]
pub struct TextBlock {
    pub id: u128,
    pub category: String,
    pub title: String,
    pub content: String,
}

} // verus!
