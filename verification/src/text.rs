//! Positions in a source text, and joining pieces of text.

use itertools::Itertools;
use vstd::prelude::*;

verus! {

/// A span of a source text, given by the byte offsets of its two ends.
#[derive(Clone, Copy, Debug, PartialEq, Eq, Structural)]
pub struct TextRange {
    pub start: u32,
    pub end: u32,
}

impl TextRange {
    /// Whether `offset` lies in the span, its two ends included.
    pub open spec fn covers(self, offset: u32) -> bool {
        self.start <= offset <= self.end
    }

    /// The number of bytes between the two ends.
    pub open spec fn extent(self) -> int {
        self.end - self.start
    }

    /// Whether `offset` lies in the span, its two ends included.
    pub fn contains_inclusive(&self, offset: u32) -> (inside: bool)
        ensures
            inside == self.covers(offset),
    {
        self.start <= offset && offset <= self.end
    }
}

/// The items in order, with `sep` between each two neighbours and nowhere else.
pub open spec fn joined(items: Seq<Seq<char>>, sep: Seq<char>) -> Seq<char>
    decreases items.len(),
{
    if items.len() == 0 {
        Seq::empty()
    } else if items.len() == 1 {
        items[0]
    } else {
        joined(items.drop_last(), sep) + sep + items.last()
    }
}

/// Renders what `Itertools::format` makes of the items: each item as it is, in
/// order, with `sep` written between each two neighbours. The contract is taken
/// from the `Display` impl of itertools' `Format`, which writes the first item
/// and then, for every further item, the separator followed by the item.
#[verifier::external_body]
pub(crate) fn format_separated(items: &Vec<String>, sep: &str) -> (text: String)
    ensures
        text@ == joined(items.deep_view(), sep@),
{
    format!("{}", items.iter().format(sep))
}

} // verus!
