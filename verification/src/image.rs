//! Image references: a `name[:tag]` token, with the tag defaulting to
//! `"latest"` when the colon is absent. The split happens at the first colon.

use vstd::prelude::*;
use vstd::string::StrSliceExecFns;

verus! {

/// A parsed image reference. Immutable once parsed.
#[derive(Debug, Clone)]
pub struct ImageRef {
    pub name: String,
    pub tag: String,
}

/// The index of the first `':'` in `s`, or `s.len()` when there is none.
pub open spec fn first_colon_index(s: Seq<char>) -> int
    decreases s.len(),
{
    if s.len() == 0 {
        0
    } else if s[0] == ':' {
        0
    } else {
        1 + first_colon_index(s.skip(1))
    }
}

/// What the name component of a reference parses to.
pub open spec fn spec_name(s: Seq<char>) -> Seq<char> {
    if first_colon_index(s) < s.len() {
        s.subrange(0, first_colon_index(s))
    } else {
        s
    }
}

/// What the tag component of a reference parses to.
pub open spec fn spec_tag(s: Seq<char>) -> Seq<char> {
    if first_colon_index(s) < s.len() {
        s.subrange(first_colon_index(s) + 1, s.len() as int)
    } else {
        "latest"@
    }
}

/// `first_colon_index` is in bounds, points at a colon when one exists, and
/// nothing before it is a colon.
pub proof fn lemma_first_colon_bounds(s: Seq<char>)
    ensures
        0 <= first_colon_index(s) <= s.len(),
        first_colon_index(s) < s.len() ==> s[first_colon_index(s)] == ':',
        forall|j: int| 0 <= j < first_colon_index(s) ==> s[j] != ':',
    decreases s.len(),
{
    if s.len() == 0 {
    } else if s[0] == ':' {
    } else {
        lemma_first_colon_bounds(s.skip(1));
        assert forall|j: int| 0 <= j < first_colon_index(s) implies s[j] != ':' by {
            if j > 0 {
                assert(s.skip(1)[j - 1] == s[j]);
            }
        }
    }
}

/// A position that a left-to-right scan stops at is `first_colon_index`.
pub proof fn lemma_first_colon_at(s: Seq<char>, i: int)
    requires
        0 <= i <= s.len(),
        forall|j: int| 0 <= j < i ==> s[j] != ':',
        i < s.len() ==> s[i] == ':',
    ensures
        first_colon_index(s) == i,
{
    lemma_first_colon_bounds(s);
    let k = first_colon_index(s);
    if k < i {
        assert(s[k] == ':');
        assert(false);
    }
    if k > i {
        assert(i < s.len());
        assert(s[i] != ':');
        assert(false);
    }
}

impl ImageRef {
    /// Splits `name[:tag]` at the first colon; without one, the whole token
    /// is the name and the tag is `"latest"`.
    pub fn parse(s: &str) -> (r: ImageRef)
        ensures
            r.name@ == spec_name(s@),
            r.tag@ == spec_tag(s@),
    {
        let n = s.unicode_len();
        let mut i: usize = 0;
        while i < n
            invariant
                n == s@.len(),
                0 <= i <= n,
                forall|j: int| 0 <= j < i ==> s@[j] != ':',
            decreases n - i,
        {
            if s.get_char(i) == ':' {
                proof {
                    lemma_first_colon_at(s@, i as int);
                }
                return ImageRef {
                    name: s.substring_char(0, i).to_owned(),
                    tag: s.substring_char(i + 1, n).to_owned(),
                };
            }
            i += 1;
        }
        proof {
            lemma_first_colon_at(s@, n as int);
        }
        ImageRef { name: s.to_owned(), tag: String::from_str("latest") }
    }
}

/// Law: a reference without a colon parses to `(name, "latest")`, and
/// `name:tag` with a colon-free name parses to `(name, tag)`.
pub proof fn lemma_parse_image_reference(name: Seq<char>, tag: Seq<char>)
    requires
        forall|j: int| 0 <= j < name.len() ==> name[j] != ':',
    ensures
        spec_name(name) == name,
        spec_tag(name) == "latest"@,
        spec_name(name + seq![':'] + tag) == name,
        spec_tag(name + seq![':'] + tag) == tag,
{
    lemma_first_colon_at(name, name.len() as int);
    let s = name + seq![':'] + tag;
    assert(s[name.len() as int] == ':');
    assert forall|j: int| 0 <= j < name.len() implies s[j] != ':' by {
        assert(s[j] == name[j]);
    }
    lemma_first_colon_at(s, name.len() as int);
    assert(spec_name(s) =~= name);
    assert(spec_tag(s) =~= tag);
}

} // verus!
