//! The in-memory text buffer backing the visible text region.

use vstd::prelude::*;

verus! {

/// Holds the document content: created empty, replaced wholesale by a
/// successful open, read wholesale by a save, and edited freely in between.
pub struct EditorSurface {
    content: String,
}

impl View for EditorSurface {
    type V = Seq<char>;

    /// The character sequence currently held.
    closed spec fn view(&self) -> Seq<char> {
        self.content@
    }
}

impl EditorSurface {
    /// An empty surface, the state at startup.
    pub fn new() -> (r: EditorSurface)
        ensures
            r@ == Seq::<char>::empty(),
    {
        EditorSurface { content: String::new() }
    }

    /// Returns a copy of the full contents.
    pub fn get_text(&self) -> (r: String)
        ensures
            r@ == self@,
    {
        self.content.clone()
    }

    /// Replaces the contents wholesale.
    pub fn set_text(&mut self, text: String)
        ensures
            final(self)@ == text@,
    {
        self.content = text;
    }
}

} // verus!
