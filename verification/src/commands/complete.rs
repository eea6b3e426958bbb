//! Completing a submodule name on the command line.

use crate::text::{has_prefix, texts};
use vstd::prelude::*;

verus! {

/// The names that begin with what was typed, in their order.
pub open spec fn completions(names: Seq<Seq<char>>, typed: Seq<char>) -> Seq<Seq<char>> {
    names.filter(|n: Seq<char>| typed.is_prefix_of(n))
}

/// The names in `names` that complete `typed`.
pub fn complete_submodule_name(names: &Vec<String>, typed: &str) -> (found: Vec<String>)
    ensures
        texts(found@) == completions(texts(names@), typed@),
{
    let mut found: Vec<String> = Vec::new();
    let ghost keep = |n: Seq<char>| typed@.is_prefix_of(n);
    let mut i: usize = 0;
    proof {
        reveal(Seq::filter);
    }
    while i < names.len()
        invariant
            i <= names.len(),
            keep == |n: Seq<char>| typed@.is_prefix_of(n),
            texts(found@) == texts(names@).take(i as int).filter(keep),
        decreases names.len() - i,
    {
        proof {
            reveal(Seq::filter);
            let next = texts(names@).take(i + 1);
            assert(next.drop_last() =~= texts(names@).take(i as int));
            assert(next.last() == names@[i as int]@);
        }
        if has_prefix(names[i].as_str(), typed) {
            let ghost before = texts(found@);
            found.push(names[i].clone());
            assert(texts(found@) =~= before.push(names@[i as int]@));
        }
        i += 1;
    }
    assert(texts(names@).take(names.len() as int) =~= texts(names@));
    found
}

} // verus!
