use vstd::prelude::*;
use vstd::string::*;

verus! {

/// `name` is the last component of the archive path `path`: `path` ends in
/// `name`, `name` holds no `/`, and before it comes `/` or nothing.
pub open spec fn is_base_name(path: Seq<char>, name: Seq<char>) -> bool {
    let k = path.len() - name.len();
    &&& name.len() <= path.len()
    &&& path.subrange(k, path.len() as int) == name
    &&& forall|i: int| 0 <= i < name.len() ==> name[i] != '/'
    &&& (k == 0 || path[k - 1] == '/')
}

/// Whether an archive entry is the one sought: not a directory, and its
/// stored path ends in the component `target`. Of the entries, in the
/// archive's own order, the first for which this holds is extracted.
pub fn entry_is_target(entry_path: &str, is_dir: bool, target: &str) -> (r: bool)
    ensures
        r == (!is_dir && is_base_name(entry_path@, target@)),
{
    if is_dir {
        return false;
    }
    let n = entry_path.unicode_len();
    let m = target.unicode_len();
    if m > n {
        return false;
    }
    let k = n - m;
    let mut j: usize = 0;
    while j < m
        invariant
            n == entry_path@.len(),
            m == target@.len(),
            k == n - m,
            j <= m,
            forall|i: int| 0 <= i < j ==> entry_path@[k + i] == target@[i],
            forall|i: int| 0 <= i < j ==> target@[i] != '/',
        decreases m - j,
    {
        let c = target.get_char(j);
        if c == '/' {
            return false;
        }
        if entry_path.get_char(k + j) != c {
            proof {
                assert(entry_path@.subrange(k as int, n as int)[j as int] != target@[j as int]);
            }
            return false;
        }
        j = j + 1;
    }
    assert(entry_path@.subrange(k as int, n as int) =~= target@);
    k == 0 || entry_path.get_char(k - 1) == '/'
}

} // verus!
