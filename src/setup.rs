//! Making the bundled tools reachable.

use vstd::prelude::*;
use crate::text::same_text;

verus! {

pub open spec fn path_views(v: Seq<String>) -> Seq<Seq<char>> {
    v.map_values(|p: String| p@)
}

/// The search path with `bin` in front, or `None` where it is listed
/// already and the path stays as it is.
pub fn path_with_bin_first(paths: &Vec<String>, bin: &str) -> (r: Option<Vec<String>>)
    ensures
        match r {
            Some(v) => !path_views(paths@).contains(bin@) && path_views(v@) == seq![bin@] + path_views(paths@),
            None => path_views(paths@).contains(bin@),
        },
{
    let n = paths.len();
    let mut i: usize = 0;
    while i < n
        invariant
            n == paths@.len(),
            i <= n,
            forall|j: int| 0 <= j < i ==> path_views(paths@)[j] != bin@,
        decreases n - i,
    {
        if same_text(paths[i].as_str(), bin) {
            assert(path_views(paths@)[i as int] == bin@);
            return None;
        }
        i = i + 1;
    }
    let mut out: Vec<String> = Vec::new();
    out.push(String::from_str(bin));
    let mut k: usize = 0;
    while k < n
        invariant
            n == paths@.len(),
            k <= n,
            path_views(out@) == seq![bin@] + path_views(paths@).subrange(0, k as int),
        decreases n - k,
    {
        let ghost prev = out@;
        let c = paths[k].clone();
        out.push(c);
        assert(path_views(out@) =~= path_views(prev).push(paths@[k as int]@));
        assert(path_views(paths@).subrange(0, k + 1) =~= path_views(paths@).subrange(0, k as int).push(paths@[k as int]@));
        assert(path_views(out@) =~= seq![bin@] + path_views(paths@).subrange(0, k + 1));
        k = k + 1;
    }
    assert(path_views(paths@).subrange(0, n as int) =~= path_views(paths@));
    Some(out)
}

} // verus!
