use vstd::prelude::*;

verus! {

/// A value with a textual form.
pub trait ToStr {
    /// The text that `to_string` returns.
    spec fn text_of(&self) -> Seq<char>;

    fn to_string(&self) -> (r: String)
        ensures
            r@ == self.text_of(),
    ;
}

} // verus!
