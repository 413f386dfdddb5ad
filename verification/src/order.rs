//! The order in which the permissions of a role are listed: by base
//! resource, then by hashtag, a permission without hashtag first.

use crate::permission::{Permission, PermissionView};
use crate::text::{
    lemma_bytes_le_antisymmetric, lemma_bytes_le_reflexive, lemma_bytes_le_total,
    lemma_bytes_le_transitive, lemma_encoding_injective, same_text, text_at_most, text_le,
};
use vstd::prelude::*;
use vstd::utf8::encode_utf8;

verus! {

/// Order of optional hashtags: none comes first, two tags go by the order
/// of texts.
pub open spec fn hashtag_le(a: Option<Seq<char>>, b: Option<Seq<char>>) -> bool {
    match (a, b) {
        (None, _) => true,
        (Some(_), None) => false,
        (Some(x), Some(y)) => text_le(x, y),
    }
}

/// Whether `p` may stand before `q` in a listing.
pub open spec fn listed_before(p: PermissionView, q: PermissionView) -> bool {
    if p.base_resource == q.base_resource {
        hashtag_le(p.hashtag, q.hashtag)
    } else {
        text_le(p.base_resource, q.base_resource)
    }
}

/// Whether a listing is in order.
pub open spec fn in_order(rows: Seq<PermissionView>) -> bool {
    forall|i: int, j: int| 0 <= i < j < rows.len() ==> listed_before(rows[i], rows[j])
}

/// Two texts below each other are the same text.
pub proof fn lemma_text_le_antisymmetric(a: Seq<char>, b: Seq<char>)
    requires
        text_le(a, b),
        text_le(b, a),
    ensures
        a == b,
{
    lemma_bytes_le_antisymmetric(encode_utf8(a), encode_utf8(b));
    lemma_encoding_injective(a, b);
}

/// Of two permissions one may stand before the other.
pub proof fn lemma_listed_before_total(p: PermissionView, q: PermissionView)
    ensures
        listed_before(p, q) || listed_before(q, p),
{
    lemma_bytes_le_total(encode_utf8(p.base_resource), encode_utf8(q.base_resource));
    if p.hashtag is Some && q.hashtag is Some {
        lemma_bytes_le_total(encode_utf8(p.hashtag->0), encode_utf8(q.hashtag->0));
    }
}

/// The order of listings is transitive.
pub proof fn lemma_listed_before_transitive(p: PermissionView, q: PermissionView, r: PermissionView)
    requires
        listed_before(p, q),
        listed_before(q, r),
    ensures
        listed_before(p, r),
{
    let (a, b, c) = (p.base_resource, q.base_resource, r.base_resource);
    lemma_bytes_le_reflexive(encode_utf8(a));
    lemma_bytes_le_reflexive(encode_utf8(b));
    if a == b && b == c {
        if p.hashtag is Some && q.hashtag is Some && r.hashtag is Some {
            lemma_bytes_le_transitive(
                encode_utf8(p.hashtag->0),
                encode_utf8(q.hashtag->0),
                encode_utf8(r.hashtag->0),
            );
        }
    } else {
        lemma_bytes_le_transitive(encode_utf8(a), encode_utf8(b), encode_utf8(c));
        if a == c {
            lemma_text_le_antisymmetric(a, b);
        }
    }
}

/// Whether `p` may stand before `q` in a listing.
pub fn may_precede(p: &Permission, q: &Permission) -> (r: bool)
    ensures
        r == listed_before(p@, q@),
{
    if same_text(p.base_resource.as_str(), q.base_resource.as_str()) {
        match (&p.hashtag, &q.hashtag) {
            (None, _) => true,
            (Some(_), None) => false,
            (Some(x), Some(y)) => text_at_most(x.as_str(), y.as_str()),
        }
    } else {
        text_at_most(p.base_resource.as_str(), q.base_resource.as_str())
    }
}

/// What a list of permissions says.
pub open spec fn views(rows: Seq<Permission>) -> Seq<PermissionView> {
    rows.map_values(|p: Permission| p@)
}

/// Puts a permission into a listing that is in order: behind every row
/// that may stand before it.
pub fn insert_in_order(listing: &mut Vec<Permission>, p: Permission)
    requires
        in_order(views(old(listing)@)),
    ensures
        in_order(views(final(listing)@)),
        views(final(listing)@).to_multiset() == views(old(listing)@).to_multiset().insert(p@),
{
    let ghost before = views(listing@);
    let mut pos: usize = 0;
    while pos < listing.len() && may_precede(&listing[pos], &p)
        invariant
            pos <= listing@.len(),
            listing@ == old(listing)@,
            before == views(listing@),
            forall|j: int| 0 <= j < pos ==> listed_before(#[trigger] before[j], p@),
        decreases listing@.len() - pos,
    {
        assert(before[pos as int] == listing@[pos as int]@);
        pos += 1;
    }
    listing.insert(pos, p);
    proof {
        let after = views(listing@);
        assert(after =~= before.insert(pos as int, p@));
        vstd::seq_lib::to_multiset_insert(before, pos as int, p@);
        assert forall|i: int, j: int| 0 <= i < j < after.len() implies listed_before(
            after[i],
            after[j],
        ) by {
            if j < pos {
            } else if j == pos {
                assert(after[i] == before[i]);
            } else if i < pos {
                assert(after[j] == before[j - 1]);
            } else if i == pos {
                assert(after[j] == before[j - 1]);
                lemma_listed_before_total(before[pos as int], p@);
                if j - 1 > pos {
                    lemma_listed_before_transitive(p@, before[pos as int], before[j - 1]);
                }
            } else {
                assert(after[i] == before[i - 1]);
                assert(after[j] == before[j - 1]);
            }
        }
    }
}

} // verus!
