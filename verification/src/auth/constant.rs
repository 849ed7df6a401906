use vstd::prelude::*;

verus! {

/// The scheme an authorization header carries a token under.
pub open spec fn bearer() -> Seq<char> {
    "Bearer "@
}

} // verus!
