//! Where the output files go: the directory of the source file.

use vstd::prelude::*;
use vstd::string::*;

verus! {

/// The separator between the components of a path.
pub const SEPARATOR: char = '/';

/// The number of characters of `path` up to and including its last
/// separator; 0 where it holds none.
pub open spec fn root_len(path: Seq<char>) -> nat
    decreases path.len(),
{
    if path.len() == 0 {
        0
    } else if path.last() == SEPARATOR {
        path.len()
    } else {
        root_len(path.drop_last())
    }
}

/// The directory part of `path`: everything up to and including the last
/// separator, the empty text where there is none.
pub open spec fn root_of(path: Seq<char>) -> Seq<char> {
    path.take(root_len(path) as int)
}

/// `root_len` never exceeds the length of the path.
pub proof fn lemma_root_len_bound(path: Seq<char>)
    ensures
        root_len(path) <= path.len(),
    decreases path.len(),
{
    if path.len() > 0 && path.last() != SEPARATOR {
        lemma_root_len_bound(path.drop_last());
    }
}

/// The root ends with the last separator of the path: a path without a
/// separator has the empty root; in any other the root's last character is a
/// separator and none comes after it.
pub proof fn lemma_root_ends_at_last_separator(path: Seq<char>)
    ensures
        root_len(path) == 0 <==> !path.contains(SEPARATOR),
        root_len(path) > 0 ==> path[root_len(path) - 1] == SEPARATOR,
        forall|i: int| root_len(path) <= i < path.len() ==> path[i] != SEPARATOR,
    decreases path.len(),
{
    lemma_root_len_bound(path);
    if path.len() > 0 && path.last() != SEPARATOR {
        let front = path.drop_last();
        lemma_root_ends_at_last_separator(front);
        lemma_root_len_bound(front);
        assert forall|i: int| root_len(path) <= i < path.len() implies path[i] != SEPARATOR by {
            if i < front.len() {
                assert(front[i] == path[i]);
            }
        }
    }
}

/// The directory of `fullpath`, with its trailing separator.
pub fn get_root(fullpath: &str) -> (root: String)
    ensures
        root@ == root_of(fullpath@),
{
    let total: usize = fullpath.unicode_len();
    let mut seen: usize = 0;
    let mut keep: usize = 0;
    for c in it: fullpath.chars()
        invariant
            total == fullpath@.len(),
            it.seq() == fullpath@,
            seen == it.index(),
            keep == root_len(fullpath@.take(seen as int)),
    {
        seen = seen + 1;
        if c == SEPARATOR {
            keep = seen;
        }
        assert(fullpath@.take(seen as int).drop_last() == fullpath@.take(seen as int - 1));
    }
    proof {
        assert(fullpath@.take(seen as int) == fullpath@);
        lemma_root_len_bound(fullpath@);
    }
    fullpath.substring_char(0, keep).to_owned()
}

} // verus!
