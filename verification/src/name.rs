//! The name of a datapack, taken from the path of its archive.

use crate::path::matches_at;
use crate::strings::chars_of;
use vstd::prelude::*;
use vstd::string::StrSliceExecFns;

verus! {

/// The text `zip`.
pub open spec fn zip_word() -> Seq<char> {
    seq!['z', 'i', 'p']
}

/// Whether the path holds a name between the indices `i` and `j`: a `/` at
/// `i`, then the name, which is not empty, then one character at `j` and the
/// word `zip`, with no line break from the name to `j`.
pub open spec fn names_pack(path: Seq<char>, i: int, j: int) -> bool {
    &&& 0 <= i
    &&& i + 2 <= j
    &&& j + 4 <= path.len()
    &&& path[i] == '/'
    &&& path.subrange(j + 1, j + 4) == zip_word()
    &&& forall|k: int| i < k <= j ==> path[k] != '\n'
}

/// Whether `i` and `j` are where the name of the pack is read: at the first
/// `/` after which a name is held, and up to the last place at which it can
/// end.
pub open spec fn names_pack_first_longest(path: Seq<char>, i: int, j: int) -> bool {
    &&& names_pack(path, i, j)
    &&& forall|i2: int, j2: int| names_pack(path, i2, j2) ==> i <= i2
    &&& forall|j2: int| names_pack(path, i, j2) ==> j2 <= j
}

/// The name for a path that holds none.
pub open spec fn untitled() -> Seq<char> {
    seq!['U', 'n', 't', 'i', 't', 'l', 'e', 'd']
}

/// The name of the datapack whose archive has the given path: what stands
/// between the first `/` that a name follows and the extension, or
/// `Untitled` where the path holds no name.
pub fn pack_name(path: &str) -> (r: String)
    ensures
        (forall|i: int, j: int| !names_pack(path@, i, j)) ==> r@ == untitled(),
        forall|i: int, j: int|
            names_pack_first_longest(path@, i, j) ==> r@ == path@.subrange(i + 1, j),
{
    let v = chars_of(path);
    let word = vec!['z', 'i', 'p'];
    assert(word@ =~= zip_word());
    let mut i: usize = 0;
    while i < v.len()
        invariant
            i <= v.len(),
            v@ == path@,
            word@ == zip_word(),
            forall|a: int, b: int| 0 <= a < i ==> !names_pack(v@, a, b),
        decreases v.len() - i,
    {
        if v[i] == '/' && v.len() >= 4 {
            // The first line break after the `/`, or the end.
            let mut end: usize = i + 1;
            while end < v.len() && v[end] != '\n'
                invariant
                    i < end <= v.len(),
                    forall|k: int| i < k < end ==> v@[k] != '\n',
                decreases v.len() - end,
            {
                end += 1;
            }
            // The name can end before `end`, and `zip` must fit behind it.
            let mut j: usize = if end - 1 > v.len() - 4 {
                v.len() - 4
            } else {
                end - 1
            };
            assert forall|b: int| b > j implies !names_pack(v@, i as int, b) by {
                if names_pack(v@, i as int, b) {
                    if b + 4 <= v.len() && b >= end {
                        assert(v@[end as int] == '\n');
                    }
                }
            }
            while j >= 2 && j - 2 >= i
                invariant
                    i < end <= v.len(),
                    j < end,
                    j + 4 <= v.len(),
                    v@ == path@,
                    word@ == zip_word(),
                    v@[i as int] == '/',
                    forall|k: int| i < k < end ==> v@[k] != '\n',
                    forall|a: int, b: int| 0 <= a < i ==> !names_pack(v@, a, b),
                    forall|b: int| b > j ==> !names_pack(v@, i as int, b),
                decreases j,
            {
                if matches_at(&v, j + 1, &word) {
                    proof {
                        assert(names_pack(v@, i as int, j as int));
                        assert(names_pack_first_longest(v@, i as int, j as int));
                        assert forall|a: int, b: int|
                            names_pack_first_longest(path@, a, b) implies a == i && b == j by {
                            assert(a <= i);
                            assert(i <= a);
                            assert(b <= j);
                        }
                    }
                    let r = path.substring_char(i + 1, j).to_owned();
                    return r;
                }
                j -= 1;
            }
            assert forall|b: int| !names_pack(v@, i as int, b) by {
                if names_pack(v@, i as int, b) {
                    assert(b > j);
                }
            }
        } else {
            assert forall|b: int| !names_pack(v@, i as int, b) by {}
        }
        i += 1;
    }
    proof {
        reveal_strlit("Untitled");
        assert forall|a: int, b: int| !names_pack(v@, a, b) by {
            if names_pack(v@, a, b) {
                assert(a < v.len());
            }
        }
    }
    let r = "Untitled".to_owned();
    assert(r@ =~= untitled());
    r
}

/// A path holds its name in one place at most: the first `/` that a name
/// follows, and the last place at which the name can end.
pub proof fn lemma_pack_name_place(path: Seq<char>, i: int, j: int, i2: int, j2: int)
    requires
        names_pack_first_longest(path, i, j),
        names_pack_first_longest(path, i2, j2),
    ensures
        i == i2,
        j == j2,
{
}

} // verus!
