use vstd::prelude::*;

verus! {

/// An executable unit of work that a step wraps.
///
/// The gating core never runs an atom and never inspects its behaviour;
/// all it needs is a textual label for display, so that is all the
/// capability asks for.
pub trait Atom {
    /// The label this atom renders as.
    spec fn spec_label(&self) -> Seq<char>;

    /// Render the atom's label.
    fn label(&self) -> (r: String)
        ensures
            r@ == self.spec_label(),
    ;
}

/// A trivial atom whose label is exactly the text it was given.
pub struct Echo(pub &'static str);

impl Atom for Echo {
    open spec fn spec_label(&self) -> Seq<char> {
        self.0@
    }

    fn label(&self) -> (r: String) {
        String::from_str(self.0)
    }
}

} // verus!
