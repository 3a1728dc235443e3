use vstd::prelude::*;

verus! {

/// A seed for a fixed set of types: it holds the tag by which the type to
/// read is picked.
pub struct TypeSeed<'de> {
    tag: &'de str,
}

impl<'de> TypeSeed<'de> {
    /// The tag, as text.
    pub closed spec fn tag_spec(&self) -> Seq<char> {
        self.tag@
    }

    /// A seed for the type that `tag` names.
    pub fn new(tag: &'de str) -> (seed: Self)
        ensures
            seed.tag_spec() == tag@,
    {
        TypeSeed { tag }
    }

    /// The tag that the seed was made with.
    pub fn tag(&self) -> (tag: &'de str)
        ensures
            tag@ == self.tag_spec(),
    {
        self.tag
    }
}

} // verus!
