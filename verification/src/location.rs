//! Resource locations: a namespace and an id, written `namespace:id`.

use crate::error::LocationFault;
use crate::error::ResourceLocationError;
use crate::strings::chars_of;
use core::str::FromStr;
use vstd::prelude::*;
use vstd::string::StrSliceExecFns;
use vstd::string::StringExecFns;

verus! {

/// A character that may stand in a namespace or in an id: a lower-case
/// letter, a digit, `_`, `.` or `-`.
pub open spec fn is_name_char(c: char) -> bool {
    ('a' <= c && c <= 'z') || ('0' <= c && c <= '9') || c == '_' || c == '.' || c == '-'
}

/// Whether every character of `s` may stand in a namespace.
pub open spec fn all_name_chars(s: Seq<char>) -> bool {
    forall|i: int| 0 <= i < s.len() ==> is_name_char(#[trigger] s[i])
}

/// A namespace or an id of the canonical grammar: one or more allowed
/// characters.
pub open spec fn is_name(s: Seq<char>) -> bool {
    s.len() > 0 && all_name_chars(s)
}

/// The first index from `from` on at which `s` holds `c`, or the length of
/// `s` if there is none.
pub open spec fn index_of(s: Seq<char>, c: char, from: int) -> int
    decreases s.len() - from,
{
    if from < 0 || from >= s.len() {
        s.len() as int
    } else if s[from] == c {
        from
    } else {
        index_of(s, c, from + 1)
    }
}

/// What `index_of` finds: no `c` before the index, and `c` at it unless it
/// is the length.
pub proof fn lemma_index_of(s: Seq<char>, c: char, from: int)
    requires
        0 <= from <= s.len(),
    ensures
        from <= index_of(s, c, from) <= s.len(),
        forall|i: int| from <= i < index_of(s, c, from) ==> s[i] != c,
        index_of(s, c, from) < s.len() ==> s[index_of(s, c, from)] == c,
    decreases s.len() - from,
{
    if from < s.len() && s[from] != c {
        lemma_index_of(s, c, from + 1);
    }
}

/// An index at which `c` stands, with no `c` between `from` and it, is what
/// `index_of` finds.
pub proof fn lemma_index_of_unique(s: Seq<char>, c: char, from: int, k: int)
    requires
        0 <= from <= k <= s.len(),
        forall|i: int| from <= i < k ==> s[i] != c,
        k < s.len() ==> s[k] == c,
    ensures
        index_of(s, c, from) == k,
    decreases s.len() - from,
{
    if from < k {
        lemma_index_of_unique(s, c, from + 1, k);
    }
}

/// The canonical text of a namespace and an id.
pub open spec fn location_text(namespace: Seq<char>, id: Seq<char>) -> Seq<char> {
    namespace + seq![':'] + id
}

/// What a text is as a resource location: its two parts, or the first fault
/// found. The text is cut at its first `:`.
pub open spec fn parse_location(s: Seq<char>) -> Result<(Seq<char>, Seq<char>), LocationFault> {
    let k = index_of(s, ':', 0);
    if k >= s.len() {
        Err(LocationFault::MissingSeparator)
    } else if k == 0 {
        Err(LocationFault::EmptyNamespace)
    } else if k + 1 == s.len() {
        Err(LocationFault::EmptyId)
    } else if !all_name_chars(s.take(k)) || !all_name_chars(s.skip(k + 1)) {
        Err(LocationFault::Syntax)
    } else {
        Ok((s.take(k), s.skip(k + 1)))
    }
}

/// Whether `c` may stand in a namespace or in an id.
pub fn name_char(c: char) -> (r: bool)
    ensures
        r == is_name_char(c),
{
    ('a' <= c && c <= 'z') || ('0' <= c && c <= '9') || c == '_' || c == '.' || c == '-'
}

/// The first index from `from` on at which `v` holds `c`, or its length.
pub fn find_char(v: &Vec<char>, c: char, from: usize) -> (r: usize)
    requires
        from <= v.len(),
    ensures
        r == index_of(v@, c, from as int),
        from <= r <= v.len(),
{
    let mut i: usize = from;
    while i < v.len() && v[i] != c
        invariant
            from <= i <= v.len(),
            index_of(v@, c, from as int) == index_of(v@, c, i as int),
        decreases v.len() - i,
    {
        i += 1;
    }
    proof {
        lemma_index_of(v@, c, i as int);
    }
    i
}

/// Whether the characters of `v` from `from` up to `to` may all stand in a
/// namespace.
pub fn name_chars_in(v: &Vec<char>, from: usize, to: usize) -> (r: bool)
    requires
        from <= to <= v.len(),
    ensures
        r == all_name_chars(v@.subrange(from as int, to as int)),
{
    let mut i: usize = from;
    while i < to
        invariant
            from <= i <= to <= v.len(),
            forall|k: int| from <= k < i ==> is_name_char(#[trigger] v@[k]),
        decreases to - i,
    {
        if !name_char(v[i]) {
            assert(v@.subrange(from as int, to as int)[i - from] == v@[i as int]);
            return false;
        }
        i += 1;
    }
    assert forall|k: int| 0 <= k < v@.subrange(from as int, to as int).len() implies is_name_char(
        #[trigger] v@.subrange(from as int, to as int)[k],
    ) by {
        assert(v@.subrange(from as int, to as int)[k] == v@[from + k]);
    }
    true
}

/// A namespaced identifier of one content element.
#[derive(Debug, Clone, PartialEq, Eq, Hash)]
pub struct ResourceLocation {
    pub namespace: String,
    pub id: String,
}

impl View for ResourceLocation {
    type V = (Seq<char>, Seq<char>);

    open spec fn view(&self) -> (Seq<char>, Seq<char>) {
        (self.namespace@, self.id@)
    }
}

impl ResourceLocation {
    /// Whether both parts follow the canonical grammar.
    pub open spec fn is_canonical(self) -> bool {
        is_name(self.namespace@) && is_name(self.id@)
    }

    /// A location of the two parts as given; they are not checked.
    pub fn new(namespace: String, id: String) -> (r: Self)
        ensures
            r.namespace == namespace,
            r.id == id,
    {
        ResourceLocation { namespace, id }
    }

    /// Reads a location in its canonical form `namespace:id`.
    pub fn parse(s: &str) -> (r: Result<ResourceLocation, ResourceLocationError>)
        ensures
            match r {
                Ok(location) => parse_location(s@) == Ok::<_, LocationFault>(location@),
                Err(e) => parse_location(s@) == Err::<(Seq<char>, Seq<char>), _>(e.spec_fault())
                    && e.spec_text() == s@,
            },
    {
        let v = chars_of(s);
        let k = find_char(&v, ':', 0);
        if k >= v.len() {
            Err(ResourceLocationError::MissingSeparator(s.to_owned()))
        } else if k == 0 {
            Err(ResourceLocationError::EmptyNamespace(s.to_owned()))
        } else if k + 1 == v.len() {
            Err(ResourceLocationError::EmptyId(s.to_owned()))
        } else {
            assert(v@.subrange(0, k as int) =~= s@.take(k as int));
            assert(v@.subrange(k + 1, v.len() as int) =~= s@.skip(k + 1));
            if !name_chars_in(&v, 0, k) || !name_chars_in(&v, k + 1, v.len()) {
                Err(ResourceLocationError::Syntax(s.to_owned()))
            } else {
                let namespace = s.substring_char(0, k).to_owned();
                let id = s.substring_char(k + 1, v.len()).to_owned();
                assert(namespace@ =~= s@.take(k as int));
                assert(id@ =~= s@.skip(k + 1));
                Ok(ResourceLocation { namespace, id })
            }
        }
    }

    /// The canonical text `namespace:id`.
    pub fn to_string(&self) -> (r: String)
        ensures
            r@ == location_text(self.namespace@, self.id@),
    {
        proof {
            reveal_strlit(":");
        }
        let r = self.namespace.clone().concat(":").concat(self.id.as_str());
        assert(r@ =~= location_text(self.namespace@, self.id@)) by {
            assert(":"@ =~= seq![':']);
        }
        r
    }

    /// A copy of the location.
    pub fn duplicate(&self) -> (r: ResourceLocation)
        ensures
            r@ == self@,
    {
        ResourceLocation { namespace: self.namespace.clone(), id: self.id.clone() }
    }

    /// Whether two locations have the same namespace and the same id.
    pub fn same(&self, other: &ResourceLocation) -> (r: bool)
        ensures
            r == (self@ == other@),
    {
        self.namespace == other.namespace && self.id == other.id
    }
}

impl FromStr for ResourceLocation {
    type Err = ResourceLocationError;

    /// Reads a location in its canonical form, as [`ResourceLocation::parse`]
    /// does.
    fn from_str(s: &str) -> (r: Result<Self, Self::Err>)
        ensures
            match r {
                Ok(location) => parse_location(s@) == Ok::<_, LocationFault>(location@),
                Err(e) => parse_location(s@) == Err::<(Seq<char>, Seq<char>), _>(e.spec_fault())
                    && e.spec_text() == s@,
            },
    {
        ResourceLocation::parse(s)
    }
}

/// A text is read as a location exactly when it is a namespace, a `:` and an
/// id, each made of one or more allowed characters; the parts read are those.
pub proof fn lemma_canonical_grammar(s: Seq<char>, namespace: Seq<char>, id: Seq<char>)
    ensures
        is_name(namespace) && is_name(id) ==> parse_location(location_text(namespace, id)) == Ok::<
            _,
            LocationFault,
        >((namespace, id)),
        parse_location(s) matches Ok(p) ==> is_name(p.0) && is_name(p.1) && s == location_text(
            p.0,
            p.1,
        ),
{
    if is_name(namespace) && is_name(id) {
        let t = location_text(namespace, id);
        let k = namespace.len() as int;
        assert forall|i: int| 0 <= i < k implies t[i] != ':' by {
            assert(t[i] == namespace[i]);
            assert(is_name_char(namespace[i]));
        }
        assert(t[k] == ':');
        lemma_index_of_unique(t, ':', 0, k);
        assert(t.take(k) =~= namespace);
        assert(t.skip(k + 1) =~= id);
    }
    if parse_location(s) is Ok {
        let k = index_of(s, ':', 0);
        lemma_index_of(s, ':', 0);
        assert(s =~= location_text(s.take(k), s.skip(k + 1)));
    }
}

/// The faults of a text are told apart: no `:` at all; nothing before the
/// first `:`; nothing after it; a character that is not allowed, which a
/// second `:` is too.
pub proof fn lemma_location_faults(s: Seq<char>)
    ensures
        parse_location(s) == Err::<(Seq<char>, Seq<char>), _>(LocationFault::MissingSeparator)
            <==> !s.contains(':'),
        parse_location(s) == Err::<(Seq<char>, Seq<char>), _>(LocationFault::EmptyNamespace)
            <==> (s.len() > 0 && s[0] == ':'),
        parse_location(s) == Err::<(Seq<char>, Seq<char>), _>(LocationFault::EmptyId) <==> (s.len()
            > 1 && s.last() == ':' && !s.drop_last().contains(':')),
        parse_location(s) == Err::<(Seq<char>, Seq<char>), _>(LocationFault::Syntax) ==> exists|
            i: int,
        |
            0 <= i < s.len() && i != index_of(s, ':', 0) && !is_name_char(s[i]),
{
    lemma_index_of(s, ':', 0);
    let k = index_of(s, ':', 0);
    if k < s.len() {
        assert(s.contains(':'));
    }
    if s.contains(':') {
        let j = choose|j: int| 0 <= j < s.len() && s[j] == ':';
        assert(k <= j);
    }
    if s.len() > 1 && s.last() == ':' && !s.drop_last().contains(':') {
        if k < s.len() - 1 {
            assert(s.drop_last()[k] == ':');
            assert(s.drop_last().contains(':'));
        }
    }
    if parse_location(s) == Err::<(Seq<char>, Seq<char>), _>(LocationFault::EmptyId) {
        if s.drop_last().contains(':') {
            let j = choose|j: int| 0 <= j < s.drop_last().len() && s.drop_last()[j] == ':';
            assert(s[j] == ':');
        }
    }
    if parse_location(s) == Err::<(Seq<char>, Seq<char>), _>(LocationFault::Syntax) {
        if !all_name_chars(s.take(k)) {
            let i = choose|i: int| 0 <= i < s.take(k).len() && !is_name_char(#[trigger] s.take(k)[i]);
            assert(s.take(k)[i] == s[i]);
        } else {
            let i = choose|i: int|
                0 <= i < s.skip(k + 1).len() && !is_name_char(#[trigger] s.skip(k + 1)[i]);
            assert(s.skip(k + 1)[i] == s[k + 1 + i]);
        }
    }
}

} // verus!
