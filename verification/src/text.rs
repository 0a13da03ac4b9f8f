//! Putting source text together.

use vstd::prelude::*;

verus! {

/// Each string of `items` by its characters.
pub open spec fn texts(items: Seq<String>) -> Seq<Seq<char>> {
    items.map_values(|item: String| item@)
}

/// The items one after another, each followed by `end`.
pub open spec fn join_terminated(items: Seq<Seq<char>>, end: Seq<char>) -> Seq<char>
    decreases items.len(),
{
    if items.len() == 0 {
        Seq::empty()
    } else {
        join_terminated(items.drop_last(), end) + items.last() + end
    }
}

/// Appends every item to `out`, each followed by `end`.
pub fn push_terminated(out: &mut String, items: &Vec<String>, end: &str)
    ensures
        final(out)@ == old(out)@ + join_terminated(texts(items@), end@),
{
    let ghost all = texts(items@);
    let mut done: usize = 0;
    while done < items.len()
        invariant
            done <= items.len(),
            all == texts(items@),
            out@ == old(out)@ + join_terminated(all.take(done as int), end@),
        decreases items.len() - done,
    {
        proof {
            let next = all.take(done + 1);
            assert(next.drop_last() =~= all.take(done as int));
            assert(next.last() == items@[done as int]@);
        }
        out.append(items[done].as_str());
        out.append(end);
        done += 1;
    }
    proof {
        assert(all.take(done as int) =~= all);
    }
}

} // verus!
