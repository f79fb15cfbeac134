//! Path handling: the filename component a file field is labelled with,
//! and the content type inferred from a path's extension.

use vstd::prelude::*;

verus! {

use vstd::string::StrSliceExecFns;
use vstd::string::StringExecFns;
use crate::trusted::guess_mime_type;
use crate::trusted::mime_of;

/// The suffix of `p` after its last '/'; the whole of `p` when it has none.
pub open spec fn path_tail(p: Seq<char>) -> Seq<char>
    decreases p.len(),
{
    if p.len() == 0 {
        Seq::<char>::empty()
    } else if p.last() == '/' {
        Seq::<char>::empty()
    } else {
        path_tail(p.drop_last()).push(p.last())
    }
}

/// The filename component of a path: what follows its last '/', or the
/// whole path when it has none; absent when that suffix is empty.
pub open spec fn filename_of_path(p: Seq<char>) -> Option<Seq<char>> {
    if path_tail(p).len() == 0 {
        None
    } else {
        Some(path_tail(p))
    }
}

/// Returns the filename component of `path`, as [`filename_of_path`] names
/// it.
pub fn opt_filename(path: &str) -> (r: Option<String>)
    ensures
        (match r {
            Some(s) => filename_of_path(path@) == Some(s@),
            None => filename_of_path(path@) is None,
        }),
{
    let n = path.unicode_len();
    let mut cut: usize = 0;
    let mut i: usize = 0;
    while i < n
        invariant
            0 <= cut <= i <= n,
            n as nat == path@.len(),
            path_tail(path@.take(i as int)) == path@.subrange(cut as int, i as int),
        decreases n - i,
    {
        let ghost p = path@;
        let ghost old_cut = cut as int;
        if path.get_char(i) == '/' {
            cut = i + 1;
        }
        i = i + 1;
        proof {
            let pi = p.take(i as int);
            assert(pi.drop_last() =~= p.take(i - 1));
            assert(pi.last() == p[i - 1]);
            if p[i - 1] == '/' {
                assert(path_tail(pi) =~= p.subrange(cut as int, i as int));
            } else {
                assert(path_tail(pi) == path_tail(p.take(i - 1)).push(p[i - 1]));
                assert(path_tail(pi) =~= p.subrange(old_cut, i as int));
            }
        }
    }
    proof {
        assert(path@.take(n as int) == path@);
    }
    if cut == n {
        None
    } else {
        Some(String::from_str(path.substring_char(cut, n)))
    }
}

/// The content type inferred for `path` and its filename component.
pub fn mime_filename(path: &str) -> (r: (String, Option<String>))
    ensures
        r.0@ == mime_of(path@),
        (match r.1 {
            Some(s) => filename_of_path(path@) == Some(s@),
            None => filename_of_path(path@) is None,
        }),
{
    let content_type = guess_mime_type(path);
    let filename = opt_filename(path);
    (content_type, filename)
}

} // verus!
