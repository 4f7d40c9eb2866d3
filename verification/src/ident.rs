//! Interned-style names.
//!
//! Every name this layer touches (mnemonics, labels, virtual registers,
//! function names) is an `Ident`. The view of an `Ident` is the sequence of
//! characters of its name; two idents are the same name exactly when their
//! views agree.

use vstd::prelude::*;

verus! {

/// An opaque name token. It is compared and rendered through its text.
#[derive(Debug)]
pub struct Ident {
    text: String,
}

impl View for Ident {
    type V = Seq<char>;

    closed spec fn view(&self) -> Seq<char> {
        self.text@
    }
}

impl Ident {
    /// Makes a name from an owned string.
    pub fn new(text: String) -> (r: Ident)
        ensures
            r@ == text@,
    {
        Ident { text }
    }

    /// Makes a name from a borrowed string.
    pub fn from_text(text: &str) -> (r: Ident)
        ensures
            r@ == text@,
    {
        Ident { text: text.to_owned() }
    }

    /// The text of the name.
    pub fn as_str(&self) -> (r: &str)
        ensures
            r@ == self@,
    {
        self.text.as_str()
    }

    /// Whether this name reads exactly as `name`.
    pub fn is_named(&self, name: &str) -> (r: bool)
        ensures
            r == (self@ == name@),
    {
        self.text == name.to_owned()
    }

    /// Whether two names are the same.
    pub fn same_as(&self, other: &Ident) -> (r: bool)
        ensures
            r == (self@ == other@),
    {
        self.text == other.text
    }
}

impl Clone for Ident {
    fn clone(&self) -> (r: Self)
        ensures
            r == *self,
    {
        Ident { text: self.text.clone() }
    }
}

} // verus!
