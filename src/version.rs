//! Published versions of a package, and the choice of the one reported as
//! latest.

use vstd::prelude::*;

verus! {

/// One published version: its number, and whether the owner withdrew it.
pub struct Version {
    pub num: String,
    pub yanked: bool,
}

impl Version {
    pub fn new(num: String, yanked: bool) -> (r: Version)
        ensures
            r.num@ == num@,
            r.yanked == yanked,
    {
        Version { num, yanked }
    }
}

/// `i` is the first version in `vs` that was not yanked.
pub open spec fn is_first_stable(vs: Seq<Version>, i: int) -> bool {
    &&& 0 <= i < vs.len()
    &&& !vs[i].yanked
    &&& forall|j: int| 0 <= j < i ==> #[trigger] vs[j].yanked
}

/// Every version in `vs` was yanked (true of an empty history).
pub open spec fn all_yanked(vs: Seq<Version>) -> bool {
    forall|j: int| 0 <= j < vs.len() ==> #[trigger] vs[j].yanked
}

/// Position of the version reported as latest: the first one, in the
/// registry's order, that was not yanked; `None` when every one was.
pub fn latest_stable(versions: &Vec<Version>) -> (r: Option<usize>)
    ensures
        match r {
            Some(i) => is_first_stable(versions@, i as int),
            None => all_yanked(versions@),
        },
{
    let mut i: usize = 0;
    while i < versions.len()
        invariant
            i <= versions@.len(),
            forall|j: int| 0 <= j < i ==> #[trigger] versions@[j].yanked,
        decreases versions@.len() - i,
    {
        if !versions[i].yanked {
            return Some(i);
        }
        i = i + 1;
    }
    None
}

} // verus!
