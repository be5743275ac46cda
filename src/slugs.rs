use vstd::prelude::*;

verus! {

/// The slug that `slug::slugify` makes of the characters `s`.
pub uninterp spec fn slug_of(s: Seq<char>) -> Seq<char>;

/// A character that may stand in a slug: `a`-`z`, `0`-`9` or `-`.
pub open spec fn is_slug_char(c: char) -> bool {
    ('a' <= c && c <= 'z') || ('0' <= c && c <= '9') || c == '-'
}

/// `s` is made of slug characters only, does not start or end with `-`
/// and never holds two `-` in a row.
pub open spec fn is_slug(s: Seq<char>) -> bool {
    &&& forall|i: int| 0 <= i < s.len() ==> is_slug_char(#[trigger] s[i])
    &&& s.len() > 0 ==> s[0] != '-' && s[s.len() - 1] != '-'
    &&& forall|i: int| 0 <= i < s.len() - 1 ==> !(#[trigger] s[i] == '-' && s[i + 1] == '-')
}

/// Relies on `slug::slugify`: its result depends on the characters alone;
/// as its documentation states, it consists of `a`-`z`, `0`-`9` and `-`,
/// never holds two `-` in a row and never starts or ends with `-`. An empty
/// input runs none of its loop and gives an empty slug.
#[verifier::external_body]
pub(crate) fn slug_text(s: &str) -> (r: String)
    ensures
        r@ == slug_of(s@),
        is_slug(r@),
        s@.len() == 0 ==> r@.len() == 0,
{
    slug::slugify(s)
}

/// A slug is a function of the text it is made from: two slugs made of
/// the same title are the same.
pub proof fn lemma_slug_deterministic(title: Seq<char>, first: Seq<char>, second: Seq<char>)
    requires
        first == slug_of(title),
        second == slug_of(title),
    ensures
        first == second,
{
}

} // verus!
