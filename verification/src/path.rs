//! The grammar of the paths of archive entries: the overlay directory in
//! front of `data/`, the namespace behind it, and the file of a biome.

use crate::location::find_char;
use crate::location::index_of;
use crate::location::is_name;
use crate::location::is_name_char;
use crate::location::lemma_index_of;
use crate::location::name_char;
use crate::location::name_chars_in;
use crate::strings::chars_of;
use vstd::prelude::*;
use vstd::string::StrSliceExecFns;

verus! {

/// A character that may stand in the name of an overlay directory: a
/// lower-case letter, a digit, `_` or `-`.
pub open spec fn is_overlay_char(c: char) -> bool {
    ('a' <= c && c <= 'z') || ('0' <= c && c <= '9') || c == '_' || c == '-'
}

/// A character that may stand in the id that a path gives: one that may
/// stand in a namespace, or `/`.
pub open spec fn is_id_char(c: char) -> bool {
    is_name_char(c) || c == '/'
}

/// Whether `s` is one or more characters that may stand in the name of an
/// overlay directory.
pub open spec fn is_overlay_name(s: Seq<char>) -> bool {
    s.len() > 0 && forall|i: int| 0 <= i < s.len() ==> is_overlay_char(#[trigger] s[i])
}

/// Whether `s` is one or more characters that may stand in an id.
pub open spec fn is_id_path(s: Seq<char>) -> bool {
    s.len() > 0 && forall|i: int| 0 <= i < s.len() ==> is_id_char(#[trigger] s[i])
}

/// The text `data/`.
pub open spec fn data_prefix() -> Seq<char> {
    seq!['d', 'a', 't', 'a', '/']
}

/// The text `/worldgen/biome/`.
pub open spec fn biome_directory() -> Seq<char> {
    seq!['/', 'w', 'o', 'r', 'l', 'd', 'g', 'e', 'n', '/', 'b', 'i', 'o', 'm', 'e', '/']
}

/// The text `.json`.
pub open spec fn json_extension() -> Seq<char> {
    seq!['.', 'j', 's', 'o', 'n']
}

/// Whether `pattern` stands in `s` at the index `at`.
pub open spec fn occurs_at(s: Seq<char>, at: int, pattern: Seq<char>) -> bool {
    0 <= at && at + pattern.len() <= s.len() && s.subrange(at, at + pattern.len()) == pattern
}

/// Whether a path lies under `data/`: it starts with `data/` and goes on.
pub open spec fn under_data(path: Seq<char>) -> bool {
    occurs_at(path, 0, data_prefix()) && path.len() > 5
}

/// The overlay directory that a path lies in: the path is a directory name,
/// `/`, and a path under `data/`. `None` for every other path.
pub open spec fn overlay_directory(path: Seq<char>) -> Option<Seq<char>> {
    let n = index_of(path, '/', 0);
    if is_overlay_name(path.take(n)) && n < path.len() && under_data(path.skip(n + 1)) {
        Some(path.take(n))
    } else {
        None
    }
}

/// The path without the overlay directory that it lies in, if it lies in
/// one.
pub open spec fn content_path(path: Seq<char>) -> Seq<char> {
    match overlay_directory(path) {
        Some(directory) => path.skip(directory.len() as int + 1),
        None => path,
    }
}

/// The namespace segment of a path under `data/`: what stands between
/// `data/` and the next `/`, or the end.
pub open spec fn namespace_segment(path: Seq<char>) -> Seq<char> {
    path.subrange(5, index_of(path, '/', 5))
}

/// The id of the biome whose file a path names: the path is `data/`, a
/// namespace, `/worldgen/biome/`, the id and `.json`. `None` for every other
/// path.
pub open spec fn biome_id(path: Seq<char>) -> Option<Seq<char>> {
    let m = index_of(path, '/', 5);
    if under_data(path) && is_name(namespace_segment(path)) && occurs_at(path, m, biome_directory())
        && m + 16 < path.len() - 5 && occurs_at(path, path.len() - 5, json_extension())
        && is_id_path(path.subrange(m + 16, path.len() - 5)) {
        Some(path.subrange(m + 16, path.len() - 5))
    } else {
        None
    }
}

/// Whether `c` may stand in the name of an overlay directory.
pub fn overlay_char(c: char) -> (r: bool)
    ensures
        r == is_overlay_char(c),
{
    ('a' <= c && c <= 'z') || ('0' <= c && c <= '9') || c == '_' || c == '-'
}

/// Whether `pattern` stands in `v` at the index `at`.
pub fn matches_at(v: &Vec<char>, at: usize, pattern: &Vec<char>) -> (r: bool)
    ensures
        r == occurs_at(v@, at as int, pattern@),
{
    if at > v.len() || pattern.len() > v.len() - at {
        return false;
    }
    let mut i: usize = 0;
    while i < pattern.len()
        invariant
            i <= pattern.len(),
            at + pattern.len() <= v.len(),
            forall|k: int| 0 <= k < i ==> v@[at + k] == pattern@[k],
        decreases pattern.len() - i,
    {
        if v[at + i] != pattern[i] {
            assert(v@.subrange(at as int, at + pattern.len())[i as int] == v@[at + i]);
            return false;
        }
        i += 1;
    }
    assert(v@.subrange(at as int, at + pattern.len()) =~= pattern@);
    true
}

/// The characters of `data/`.
fn data_prefix_chars() -> (r: Vec<char>)
    ensures
        r@ == data_prefix(),
{
    let r = vec!['d', 'a', 't', 'a', '/'];
    assert(r@ =~= data_prefix());
    r
}

/// The characters of `/worldgen/biome/`.
fn biome_directory_chars() -> (r: Vec<char>)
    ensures
        r@ == biome_directory(),
{
    let r = vec!['/', 'w', 'o', 'r', 'l', 'd', 'g', 'e', 'n', '/', 'b', 'i', 'o', 'm', 'e', '/'];
    assert(r@ =~= biome_directory());
    r
}

/// The characters of `.json`.
fn json_extension_chars() -> (r: Vec<char>)
    ensures
        r@ == json_extension(),
{
    let r = vec!['.', 'j', 's', 'o', 'n'];
    assert(r@ =~= json_extension());
    r
}

/// Whether the first `to` characters of `v` are one or more characters that
/// may stand in the name of an overlay directory.
fn overlay_name_in(v: &Vec<char>, to: usize) -> (r: bool)
    requires
        to <= v.len(),
    ensures
        r == is_overlay_name(v@.take(to as int)),
{
    if to == 0 {
        return false;
    }
    let mut i: usize = 0;
    while i < to
        invariant
            i <= to <= v.len(),
            forall|k: int| 0 <= k < i ==> is_overlay_char(#[trigger] v@[k]),
        decreases to - i,
    {
        if !overlay_char(v[i]) {
            assert(v@.take(to as int)[i as int] == v@[i as int]);
            return false;
        }
        i += 1;
    }
    assert forall|k: int| 0 <= k < v@.take(to as int).len() implies is_overlay_char(
        #[trigger] v@.take(to as int)[k],
    ) by {
        assert(v@.take(to as int)[k] == v@[k]);
    }
    true
}

/// Whether the characters of `v` from `from` up to `to` are one or more
/// characters that may stand in an id.
fn id_path_in(v: &Vec<char>, from: usize, to: usize) -> (r: bool)
    requires
        from <= to <= v.len(),
    ensures
        r == is_id_path(v@.subrange(from as int, to as int)),
{
    if from == to {
        return false;
    }
    let mut i: usize = from;
    while i < to
        invariant
            from <= i <= to <= v.len(),
            forall|k: int| from <= k < i ==> is_id_char(#[trigger] v@[k]),
        decreases to - i,
    {
        if !(name_char(v[i]) || v[i] == '/') {
            assert(v@.subrange(from as int, to as int)[i - from] == v@[i as int]);
            return false;
        }
        i += 1;
    }
    assert forall|k: int| 0 <= k < v@.subrange(from as int, to as int).len() implies is_id_char(
        #[trigger] v@.subrange(from as int, to as int)[k],
    ) by {
        assert(v@.subrange(from as int, to as int)[k] == v@[from + k]);
    }
    true
}

/// Whether the characters of `v` from `from` on lie under `data/`.
fn under_data_from(v: &Vec<char>, from: usize) -> (r: bool)
    requires
        from <= v.len(),
    ensures
        r == under_data(v@.skip(from as int)),
{
    let prefix = data_prefix_chars();
    let r = matches_at(v, from, &prefix) && v.len() - from > 5;
    proof {
        let tail = v@.skip(from as int);
        if from + 5 <= v.len() {
            assert(tail.subrange(0, 5) =~= v@.subrange(from as int, from + 5));
        }
    }
    r
}

/// The overlay directory that a path lies in, if it lies in one.
pub fn overlay_directory_of(path: &str) -> (r: Option<String>)
    ensures
        match r {
            Some(directory) => overlay_directory(path@) == Some(directory@),
            None => overlay_directory(path@) is None,
        },
{
    let v = chars_of(path);
    let n = find_char(&v, '/', 0);
    if n < v.len() && overlay_name_in(&v, n) && under_data_from(&v, n + 1) {
        let directory = path.substring_char(0, n).to_owned();
        assert(directory@ =~= path@.take(n as int));
        Some(directory)
    } else {
        None
    }
}

/// The path without the overlay directory that it lies in, if it lies in
/// one.
pub fn content_path_of(path: &str) -> (r: String)
    ensures
        r@ == content_path(path@),
{
    let v = chars_of(path);
    let n = find_char(&v, '/', 0);
    if n < v.len() && overlay_name_in(&v, n) && under_data_from(&v, n + 1) {
        let rest = path.substring_char(n + 1, v.len()).to_owned();
        assert(rest@ =~= path@.skip(n + 1));
        assert(path@.take(n as int).len() == n);
        rest
    } else {
        path.to_owned()
    }
}

/// Whether a path lies under `data/`.
pub fn is_under_data(path: &str) -> (r: bool)
    ensures
        r == under_data(path@),
{
    let v = chars_of(path);
    assert(v@.skip(0) =~= v@);
    under_data_from(&v, 0)
}

/// The namespace of a path under `data/`, if its namespace segment is one
/// or more allowed characters.
pub fn namespace_of(path: &str) -> (r: Option<String>)
    requires
        under_data(path@),
    ensures
        match r {
            Some(namespace) => is_name(namespace@) && namespace@ == namespace_segment(path@),
            None => !is_name(namespace_segment(path@)),
        },
{
    let v = chars_of(path);
    let m = find_char(&v, '/', 5);
    if m > 5 && name_chars_in(&v, 5, m) {
        let namespace = path.substring_char(5, m).to_owned();
        Some(namespace)
    } else {
        None
    }
}

/// The id of the biome whose file a path names, if it names one.
pub fn biome_id_of(path: &str) -> (r: Option<String>)
    ensures
        match r {
            Some(id) => biome_id(path@) == Some(id@),
            None => biome_id(path@) is None,
        },
{
    let v = chars_of(path);
    assert(v@.skip(0) =~= v@);
    if !under_data_from(&v, 0) {
        return None;
    }
    let m = find_char(&v, '/', 5);
    if !(m > 5 && name_chars_in(&v, 5, m)) {
        return None;
    }
    let directory = biome_directory_chars();
    let extension = json_extension_chars();
    if !matches_at(&v, m, &directory) {
        return None;
    }
    assert(m + 16 <= v.len());
    if v.len() - (m + 16) < 6 {
        return None;
    }
    let end: usize = v.len() - 5;
    if !matches_at(&v, end, &extension) {
        return None;
    }
    if !id_path_in(&v, m + 16, end) {
        return None;
    }
    Some(path.substring_char(m + 16, end).to_owned())
}

/// A path that names the file of a biome lies under `data/` and has an
/// allowed namespace; the path is then `data/`, the namespace,
/// `/worldgen/biome/`, the id and `.json`.
pub proof fn lemma_biome_path(path: Seq<char>)
    requires
        biome_id(path) is Some,
    ensures
        under_data(path),
        is_name(namespace_segment(path)),
        is_id_path(biome_id(path)->0),
        path == data_prefix() + namespace_segment(path) + biome_directory() + biome_id(path)->0
            + json_extension(),
{
    let m = index_of(path, '/', 5);
    lemma_index_of(path, '/', 5);
    let built = data_prefix() + namespace_segment(path) + biome_directory() + biome_id(path)->0
        + json_extension();
    assert(path.subrange(0, 5) == data_prefix());
    assert(path.subrange(m, m + 16) == biome_directory());
    assert(path.subrange(path.len() - 5, path.len() as int) == json_extension());
    assert(built.len() == path.len());
    assert forall|i: int| 0 <= i < path.len() implies path[i] == built[i] by {
        if i < 5 {
            assert(path.subrange(0, 5)[i] == path[i]);
        } else if i < m {
            assert(namespace_segment(path)[i - 5] == path[i]);
        } else if i < m + 16 {
            assert(path.subrange(m, m + 16)[i - m] == path[i]);
        } else if i < path.len() - 5 {
            assert(biome_id(path)->0[i - m - 16] == path[i]);
        } else {
            assert(path.subrange(path.len() - 5, path.len() as int)[i - (path.len() - 5)]
                == path[i]);
        }
    }
    assert(path =~= built);
}

/// A path that is built as `data/`, an allowed namespace, `/worldgen/biome/`,
/// an id and `.json` lies under `data/` and names the file of the biome with
/// that id in that namespace.
pub proof fn lemma_biome_path_built(namespace: Seq<char>, id: Seq<char>)
    requires
        is_name(namespace),
        is_id_path(id),
    ensures
        ({
            let path = data_prefix() + namespace + biome_directory() + id + json_extension();
            &&& under_data(path)
            &&& namespace_segment(path) == namespace
            &&& biome_id(path) == Some(id)
        }),
{
    let path = data_prefix() + namespace + biome_directory() + id + json_extension();
    let m: int = 5 + namespace.len() as int;
    assert(path.subrange(0, 5) =~= data_prefix());
    assert forall|i: int| 5 <= i < m implies path[i] != '/' by {
        assert(path[i] == namespace[i - 5]);
        assert(is_name_char(namespace[i - 5]));
    }
    assert(path[m] == biome_directory()[0]);
    crate::location::lemma_index_of_unique(path, '/', 5, m);
    assert(path.subrange(5, m) =~= namespace);
    assert(path.subrange(m, m + 16) =~= biome_directory());
    assert(path.subrange(path.len() - 5, path.len() as int) =~= json_extension());
    assert(path.subrange(m + 16, path.len() - 5) =~= id);
}

} // verus!
