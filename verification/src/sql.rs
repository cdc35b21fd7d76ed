//! Query text that depends on how many values a query binds.

use vstd::prelude::*;

verus! {

/// `count` question marks with commas between them.
pub open spec fn placeholders(count: nat) -> Seq<char>
    decreases count,
{
    if count == 0 {
        Seq::empty()
    } else if count == 1 {
        seq!['?']
    } else {
        placeholders((count - 1) as nat) + seq![',', '?']
    }
}

/// The placeholders of a query that binds `count` values, one question
/// mark for each and commas between them; `None` where there is nothing to
/// bind, and so nothing to ask.
pub fn batch_placeholders(count: usize) -> (text: Option<String>)
    ensures
        match text {
            Some(t) => count > 0 && t@ == placeholders(count as nat),
            None => count == 0,
        },
{
    if count == 0 {
        return None;
    }
    proof {
        reveal_strlit("?");
    }
    let mut text = String::new();
    text.append("?");
    let mut i: usize = 1;
    while i < count
        invariant
            1 <= i <= count,
            text@ == placeholders(i as nat),
        decreases count - i,
    {
        proof {
            reveal_strlit(",?");
        }
        text.append(",?");
        i += 1;
    }
    Some(text)
}

} // verus!
