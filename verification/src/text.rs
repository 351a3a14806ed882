//! Texts as sequences of characters: the views that contracts speak of.

use vstd::prelude::*;

verus! {

/// Pairs of texts, each viewed.
pub open spec fn pairs_view(pairs: Seq<(String, String)>) -> Seq<(Seq<char>, Seq<char>)> {
    Seq::new(pairs.len(), |i: int| (pairs[i].0@, pairs[i].1@))
}

/// A text or a failure message, viewed.
pub open spec fn text_view(text: Result<String, String>) -> Result<Seq<char>, Seq<char>> {
    match text {
        Ok(text) => Ok(text@),
        Err(message) => Err(message@),
    }
}

} // verus!
