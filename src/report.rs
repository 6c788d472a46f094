//! The two ways of reporting a version history: the latest stable version
//! alone, or every version from newest to oldest.

use vstd::prelude::*;

use crate::format::{entry_line, entry_text, index_label, indexed_line, plain_text, shows, Line};
use crate::version::{all_yanked, is_first_stable, latest_stable, Version};

verus! {

/// `l` is the latest-mode line for `vs`: the first version that was not
/// yanked, in the registry's order, written as `name = "num"`.
pub open spec fn reports_latest(name: Seq<char>, vs: Seq<Version>, l: Line) -> bool {
    exists|i: int| is_first_stable(vs, i) && #[trigger] shows(l, entry_text(name, vs[i].num@), vs[i])
}

/// Position in `vs` of the version shown on line `k` of the list: the list
/// runs from the last version to the first.
pub open spec fn listed_at(vs: Seq<Version>, k: int) -> int {
    vs.len() - 1 - k
}

/// `lines` is the list-mode report of `vs`: one line per version, newest
/// first, numbered from one.
pub open spec fn reports_list(name: Seq<char>, vs: Seq<Version>, lines: Seq<Line>) -> bool {
    &&& lines.len() == vs.len()
    &&& forall|k: int|
        0 <= k < lines.len() ==> shows(
            #[trigger] lines[k],
            index_label((k + 1) as nat) + entry_text(name, vs[listed_at(vs, k)].num@),
            vs[listed_at(vs, k)],
        )
}

/// Versions that come after the reported one do not change the latest-mode
/// line: appending to the history keeps it.
pub proof fn lemma_latest_ignores_later(
    name: Seq<char>,
    vs: Seq<Version>,
    later: Seq<Version>,
    l: Line,
)
    requires
        reports_latest(name, vs, l),
    ensures
        reports_latest(name, vs + later, l),
{
    let i = choose|i: int| is_first_stable(vs, i) && #[trigger] shows(l, entry_text(name, vs[i].num@), vs[i]);
    let ext = vs + later;
    assert(ext[i] == vs[i]);
    assert forall|j: int| 0 <= j < i implies #[trigger] ext[j].yanked by {
        assert(ext[j] == vs[j]);
        assert(vs[j].yanked);
    }
    assert(is_first_stable(ext, i));
    assert(shows(l, entry_text(name, ext[i].num@), ext[i]));
}

/// The latest-mode line is determined by the name and the history: any two
/// lines that report it read the same.
pub proof fn lemma_latest_determined(name: Seq<char>, vs: Seq<Version>, a: Line, b: Line)
    requires
        reports_latest(name, vs, a),
        reports_latest(name, vs, b),
    ensures
        plain_text(a) == plain_text(b),
{
    let i = choose|i: int| is_first_stable(vs, i) && #[trigger] shows(a, entry_text(name, vs[i].num@), vs[i]);
    let k = choose|k: int| is_first_stable(vs, k) && #[trigger] shows(b, entry_text(name, vs[k].num@), vs[k]);
    if i < k {
        assert(vs[i].yanked);
    } else if k < i {
        assert(vs[k].yanked);
    }
    assert(i == k);
}

/// The latest-mode line for `versions`, or `None` when no version is left
/// once the yanked ones are set aside.
pub fn latest_line(name: &str, versions: &Vec<Version>) -> (r: Option<Line>)
    ensures
        match r {
            Some(l) => reports_latest(name@, versions@, l),
            None => all_yanked(versions@),
        },
{
    match latest_stable(versions) {
        Some(i) => {
            let l = entry_line(name, &versions[i]);
            assert(shows(l, entry_text(name@, versions@[i as int].num@), versions@[i as int]));
            Some(l)
        },
        None => None,
    }
}

/// Every version of `versions`, newest first, each line numbered from one.
pub fn list_lines(name: &str, versions: &Vec<Version>) -> (r: Vec<Line>)
    ensures
        reports_list(name@, versions@, r@),
{
    let n = versions.len();
    let mut lines: Vec<Line> = Vec::new();
    let mut k: usize = 0;
    while k < n
        invariant
            n == versions@.len(),
            k <= n,
            lines@.len() == k,
            forall|j: int|
                0 <= j < k ==> shows(
                    #[trigger] lines@[j],
                    index_label((j + 1) as nat) + entry_text(
                        name@,
                        versions@[listed_at(versions@, j)].num@,
                    ),
                    versions@[listed_at(versions@, j)],
                ),
        decreases n - k,
    {
        let l = indexed_line(name, k + 1, &versions[n - 1 - k]);
        lines.push(l);
        k = k + 1;
    }
    lines
}

} // verus!
