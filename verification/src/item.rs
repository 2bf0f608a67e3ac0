//! Candidate items: what one picker session selects between.

use vstd::prelude::*;

verus! {

/// Preview content attached to a candidate item: nothing, fixed text, or a
/// command whose output the engine shows.
pub enum Preview {
    Empty,
    Text(String),
    Command(String),
}

/// A selectable candidate produced by a provider. The display text is what
/// the fuzzy matcher scores and the interface shows; the output text is what
/// token substitution uses; the two are kept apart so that items equal in
/// output stay distinguishable in the candidate list.
pub struct Item {
    pub display: String,
    pub output: String,
    pub preview: Preview,
}

impl Item {
    /// Builds an item whose output equals its display text, the default for
    /// providers that set no separate output.
    pub fn from_text(display: String, preview: Preview) -> (r: Item)
        ensures
            r.display@ == display@,
            r.output@ == display@,
            r.preview == preview,
    {
        let output = display.clone();
        Item { display, output, preview }
    }

    /// The text the fuzzy matcher scores and the interface shows.
    pub fn text(&self) -> (r: &String)
        ensures
            r@ == self.display@,
    {
        &self.display
    }

    /// The text substituted for the selection token of a chained command.
    pub fn output(&self) -> (r: &String)
        ensures
            r@ == self.output@,
    {
        &self.output
    }
}

} // verus!
