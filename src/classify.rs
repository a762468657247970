use vstd::prelude::*;

verus! {

/// The byte `.`.
pub const DOT: u8 = 46;

/// The extension that marks (`safetensors`, as bytes) a directory as holding model weights.
pub open spec fn marker_extension() -> Seq<u8> {
    seq![115u8, 97, 102, 101, 116, 101, 110, 115, 111, 114, 115]
}

/// The extension of the archives that are inspected (`zip`, as bytes).
pub open spec fn archive_extension() -> Seq<u8> {
    seq![122u8, 105, 112]
}

/// `name` has extension `ext` (which holds no dot): it ends in `.` followed
/// by `ext`, and that dot is not the name's first byte, so `.zip` has none.
pub open spec fn has_extension(name: Seq<u8>, ext: Seq<u8>) -> bool {
    &&& name.len() >= ext.len() + 2
    &&& name[name.len() - ext.len() - 1] == DOT
    &&& name.subrange(name.len() - ext.len(), name.len() as int) == ext
}

pub open spec fn is_marker(name: Seq<u8>) -> bool {
    has_extension(name, marker_extension())
}

pub open spec fn is_archive(name: Seq<u8>) -> bool {
    has_extension(name, archive_extension())
}

/// Some file of the listing carries the weights marker.
pub open spec fn listing_has_marker(names: Seq<Vec<u8>>) -> bool {
    exists|i: int| 0 <= i < names.len() && is_marker(#[trigger] names[i]@)
}

/// Positions of the archives in the listing, in listing order.
pub open spec fn archive_positions(names: Seq<Vec<u8>>) -> Seq<usize>
    decreases names.len(),
{
    if names.len() == 0 {
        seq![]
    } else {
        let k = names.len() - 1;
        archive_positions(names.take(k)) + if is_archive(names[k]@) {
            seq![k as usize]
        } else {
            seq![]
        }
    }
}

fn marker_extension_bytes() -> (r: Vec<u8>)
    ensures
        r@ == marker_extension(),
{
    let r = vec![115u8, 97, 102, 101, 116, 101, 110, 115, 111, 114, 115];
    assert(r@ =~= marker_extension());
    r
}

fn archive_extension_bytes() -> (r: Vec<u8>)
    ensures
        r@ == archive_extension(),
{
    let r = vec![122u8, 105, 112];
    assert(r@ =~= archive_extension());
    r
}

/// Whether `name` has extension `ext`, compared byte for byte.
pub fn name_has_extension(name: &Vec<u8>, ext: &Vec<u8>) -> (r: bool)
    ensures
        r == has_extension(name@, ext@),
{
    let n = name.len();
    let m = ext.len();
    if n < 2 || n - 2 < m {
        return false;
    }
    if name[n - m - 1] != DOT {
        return false;
    }
    let start = n - m;
    let mut j: usize = 0;
    while j < m
        invariant
            n == name@.len(),
            m == ext@.len(),
            start == n - m,
            j <= m,
            forall|k: int| 0 <= k < j ==> name@[start + k] == ext@[k],
        decreases m - j,
    {
        if name[start + j] != ext[j] {
            proof {
                assert(name@.subrange(start as int, n as int)[j as int] != ext@[j as int]);
            }
            return false;
        }
        j = j + 1;
    }
    assert(name@.subrange(start as int, n as int) =~= ext@);
    true
}

/// What one directory's listing says: whether it holds weights, and which of
/// its files are archives to inspect.
pub struct DirectoryPlan {
    pub has_marker: bool,
    /// Positions in the listing of the archives to inspect, in listing order;
    /// empty when the directory holds no weights.
    pub archives: Vec<usize>,
}

/// The plan for a directory whose files are named `names`.
pub open spec fn plan_of(names: Seq<Vec<u8>>) -> (bool, Seq<usize>) {
    if listing_has_marker(names) {
        (true, archive_positions(names))
    } else {
        (false, seq![])
    }
}

/// Classifies a directory from the names of the files directly inside it.
pub fn classify_files(names: &Vec<Vec<u8>>) -> (r: DirectoryPlan)
    ensures
        (r.has_marker, r.archives@) == plan_of(names@),
{
    let marker = marker_extension_bytes();
    let archive = archive_extension_bytes();
    let mut has_marker = false;
    let mut archives: Vec<usize> = Vec::new();
    let mut i: usize = 0;
    while i < names.len()
        invariant
            i <= names@.len(),
            marker@ == marker_extension(),
            archive@ == archive_extension(),
            has_marker == listing_has_marker(names@.take(i as int)),
            archives@ == archive_positions(names@.take(i as int)),
        decreases names@.len() - i,
    {
        let name = &names[i];
        let ghost prefix = names@.take(i as int);
        let ghost next = names@.take(i + 1);
        assert(next.take(i as int) =~= prefix);
        if name_has_extension(name, &marker) {
            assert(is_marker(next[i as int]@));
            has_marker = true;
        } else {
            assert forall|j: int| 0 <= j < next.len() && is_marker(#[trigger] next[j]@) implies
                0 <= j < prefix.len() && is_marker(prefix[j]@) by {
                assert(next[j] == prefix[j]);
            }
        }
        if name_has_extension(name, &archive) {
            archives.push(i);
        }
        i = i + 1;
    }
    assert(names@.take(names@.len() as int) =~= names@);
    if has_marker {
        DirectoryPlan { has_marker: true, archives }
    } else {
        DirectoryPlan { has_marker: false, archives: Vec::new() }
    }
}

} // verus!
