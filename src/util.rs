use crate::text::{contains, first_at, lemma_first_at, find_from, string_of, to_chars};
use vstd::prelude::*;

verus! {

/// The download host's directory for a book: its id rounded down to a
/// multiple of a thousand.
pub open spec fn group_id(id: nat) -> nat {
    (id / 1000) * 1000
}

/// Rounds a book id down to its group id.
pub fn calculate_group_id(id: u64) -> (r: u64)
    ensures
        r as nat == group_id(id as nat),
{
    (id / 1000) * 1000
}

/// A group id is its own group id, lies at or below the id, and less than a
/// thousand below it.
pub proof fn lemma_group_id_laws(id: nat)
    ensures
        group_id(group_id(id)) == group_id(id),
        group_id(id) <= id,
        id - group_id(id) < 1000,
{
    let q = id / 1000;
    assert(q * 1000 <= id && id - q * 1000 < 1000) by (nonlinear_arith)
        requires
            q == id / 1000,
    ;
    assert((q * 1000) / 1000 == q) by (nonlinear_arith);
}

/// The marker that precedes the hash in a book link.
pub open spec fn md5_marker() -> Seq<char> {
    seq!['m', 'd', '5', '=']
}

/// The text between the first `md5=` of `url` and the next one, or the end:
/// the second piece of `url` split on `md5=`.
pub open spec fn md5_segment(url: Seq<char>) -> Option<Seq<char>> {
    match first_at(url, md5_marker(), 0) {
        None => None,
        Some(i) => match first_at(url, md5_marker(), i + 4) {
            None => Some(url.subrange(i + 4, url.len() as int)),
            Some(j) => Some(url.subrange(i + 4, j)),
        },
    }
}

/// A link without `md5=` has no hash, and one with it has.
pub proof fn lemma_md5_needs_marker(url: Seq<char>)
    ensures
        md5_segment(url) is Some <==> contains(url, md5_marker()),
{
    lemma_first_at(url, md5_marker(), 0);
}

/// The Unicode lowercase of a string, as `str::to_lowercase` computes it.
pub uninterp spec fn lower_of(s: Seq<char>) -> Seq<char>;

/// Relies on `str::to_lowercase`: the Unicode lowercase mapping, which
/// depends on the characters alone.
#[verifier::external_body]
fn lowercase(s: &str) -> (r: String)
    ensures
        r@ == lower_of(s@),
{
    s.to_lowercase()
}

/// The MD5 hash of a book link: the lowercased text after the first `md5=`,
/// up to the next `md5=`, or nothing if the link has no `md5=`.
pub fn parse_md5_from_url(url: String) -> (r: Option<String>)
    ensures
        r is Some <==> md5_segment(url@) is Some,
        r is Some ==> r->0@ == lower_of(md5_segment(url@)->0),
{
    let chars = to_chars(url.as_str());
    let marker: Vec<char> = vec!['m', 'd', '5', '='];
    assert(marker@ =~= md5_marker());
    match find_from(&chars, &marker, 0) {
        None => None,
        Some(i) => {
            proof {
                lemma_first_at(chars@, marker@, 0);
            }
            assert(i + 4 <= chars.len());
            let end = match find_from(&chars, &marker, i + 4) {
                Some(j) => j,
                None => chars.len(),
            };
            proof {
                lemma_first_at(chars@, marker@, i + 4);
            }
            let segment = string_of(&chars, i + 4, end);
            Some(lowercase(segment.as_str()))
        },
    }
}

} // verus!
