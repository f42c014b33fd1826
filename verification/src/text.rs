//! The two textual capabilities: a human-readable form and a structural form.
use vstd::prelude::*;

verus! {

/// A value with a human-readable text form.
///
/// The text is a function of the value alone, so rendering the same value
/// twice gives the same text.
pub trait Render {
    /// The human-readable text of this value.
    spec fn text(&self) -> Seq<char>;

    /// Appends the human-readable text of this value to `out`.
    fn render_into(&self, out: &mut String)
        ensures
            final(out)@ == old(out)@ + self.text(),
    ;

    /// The human-readable text of this value as a string of its own.
    fn render(&self) -> (s: String)
        ensures
            s@ == self.text(),
    {
        let mut s = String::new();
        self.render_into(&mut s);
        s
    }
}

/// A value with a structural form, meant for diagnostics.
///
/// The structure is a function of the value alone.
pub trait Describe {
    /// The structural text of this value.
    spec fn structure(&self) -> Seq<char>;

    /// Appends the structural text of this value to `out`.
    fn describe_into(&self, out: &mut String)
        ensures
            final(out)@ == old(out)@ + self.structure(),
    ;

    /// The structural text of this value as a string of its own.
    fn describe(&self) -> (s: String)
        ensures
            s@ == self.structure(),
    {
        let mut s = String::new();
        self.describe_into(&mut s);
        s
    }
}

} // verus!
