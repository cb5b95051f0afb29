//! Texts in a row.

use vstd::prelude::*;

verus! {

/// `parts` in a row with `delimiter` between each two neighbours, and
/// nowhere else.
pub open spec fn join(parts: Seq<Seq<char>>, delimiter: Seq<char>) -> Seq<char>
    decreases parts.len(),
{
    if parts.len() == 0 {
        Seq::empty()
    } else if parts.len() == 1 {
        parts[0]
    } else {
        join(parts.drop_last(), delimiter) + delimiter + parts.last()
    }
}

/// One more part adds itself to the row, behind a delimiter where it is not
/// the first.
pub proof fn lemma_join_push(parts: Seq<Seq<char>>, part: Seq<char>, delimiter: Seq<char>)
    ensures
        join(parts.push(part), delimiter) == if parts.len() == 0 {
            part
        } else {
            join(parts, delimiter) + delimiter + part
        },
{
    assert(parts.push(part).drop_last() =~= parts);
}

} // verus!
