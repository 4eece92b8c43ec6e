//! The documents that are open in an editor.
use vstd::prelude::*;

verus! {

/// A document that is open in an editor.
#[derive(Clone, Debug)]
pub struct Document {
    /// The whole source text.
    pub source: String,
}

impl View for Document {
    type V = Seq<char>;

    open spec fn view(&self) -> Seq<char> {
        self.source@
    }
}

impl Document {
    pub fn new(source: String) -> (r: Self)
        ensures
            r.source == source,
    {
        Self { source }
    }
}

} // verus!
