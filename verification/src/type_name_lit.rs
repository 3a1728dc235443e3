use vstd::prelude::*;

use crate::text::{debug_quote, debug_quoted};

verus! {

/// `&'static str` newtype that names a type. Rendered for display it is the
/// bare name; rendered for debugging it is the name as a quoted literal.
#[derive(Clone, Copy, PartialEq, Eq)]
pub struct TypeNameLit(pub &'static str);

impl View for TypeNameLit {
    type V = Seq<char>;

    open spec fn view(&self) -> Seq<char> {
        self.0@
    }
}

impl TypeNameLit {
    /// The name as it is displayed: the bare name.
    pub fn to_string(&self) -> (s: String)
        ensures
            s@ == self@,
    {
        self.0.to_owned()
    }

    /// The name as it is shown when debugging: a quoted literal.
    pub fn to_debug_string(&self) -> (s: String)
        ensures
            s@ == debug_quoted(self@),
    {
        debug_quote(self.0)
    }
}

} // verus!
