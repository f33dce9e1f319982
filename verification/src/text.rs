//! What it means for a message to mention a piece of text.

use vstd::prelude::*;

verus! {

/// `part` occurs in `text` as a contiguous run of characters.
pub open spec fn mentions(text: Seq<char>, part: Seq<char>) -> bool {
    exists|before: Seq<char>, after: Seq<char>| text == #[trigger] (before + part + after)
}

/// A text that is put together from three pieces mentions the middle one.
pub proof fn lemma_mentions_middle(before: Seq<char>, part: Seq<char>, after: Seq<char>)
    ensures
        mentions(before + part + after, part),
{
}

} // verus!
