//! Finding the submodule that `rm` is to remove.

use crate::text::same_text;
use vstd::prelude::*;

verus! {

/// No declared submodule has the name or the path that was given.
#[derive(Debug)]
pub struct NotFound {
    pub wanted: String,
}

/// Whether a submodule with this name and path is the one called `wanted`.
pub open spec fn answers_to(name: Seq<char>, path: Seq<char>, wanted: Seq<char>) -> bool {
    name == wanted || path == wanted
}

impl NotFound {
    /// What went wrong, in one line.
    pub fn message(&self) -> (r: String)
        ensures
            r@ == "Submodule '"@ + self.wanted@ + "' not found"@,
    {
        String::from_str("Submodule '").concat(self.wanted.as_str()).concat("' not found")
    }
}

/// The position of the first submodule in `declared`, a list of names with their paths,
/// whose name or path is `wanted`.
pub fn find_submodule(declared: &Vec<(String, String)>, wanted: &str) -> (r: Result<
    usize,
    NotFound,
>)
    ensures
        match r {
            Ok(at) => {
                &&& at < declared.len()
                &&& answers_to(declared[at as int].0@, declared[at as int].1@, wanted@)
                &&& forall|j: int|
                    0 <= j < at ==> !answers_to(
                        (#[trigger] declared[j]).0@,
                        declared[j].1@,
                        wanted@,
                    )
            },
            Err(e) => {
                &&& e.wanted@ == wanted@
                &&& forall|j: int|
                    0 <= j < declared.len() ==> !answers_to(
                        (#[trigger] declared[j]).0@,
                        declared[j].1@,
                        wanted@,
                    )
            },
        },
{
    let mut i: usize = 0;
    while i < declared.len()
        invariant
            i <= declared.len(),
            forall|j: int|
                0 <= j < i ==> !answers_to((#[trigger] declared[j]).0@, declared[j].1@, wanted@),
        decreases declared.len() - i,
    {
        let entry = &declared[i];
        if same_text(entry.0.as_str(), wanted) || same_text(entry.1.as_str(), wanted) {
            return Ok(i);
        }
        i += 1;
    }
    Err(NotFound { wanted: String::from_str(wanted) })
}

} // verus!
