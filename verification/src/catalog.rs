//! The order in which movies are listed.
//!
//! Whoever walks the movie directory hands the names it found to
//! [`listing_order`], which returns them as the catalogue shows them: sorted
//! the way strings compare, byte by byte.

use vstd::prelude::*;

verus! {

/// Whether `a` is `b` or stands before it when the two are compared byte by
/// byte: at the first place where they differ `a` has the smaller byte, or
/// `a` ends first.
pub open spec fn bytes_in_order(a: Seq<u8>, b: Seq<u8>) -> bool
    decreases a.len(),
{
    if a.len() == 0 {
        true
    } else if b.len() == 0 {
        false
    } else if a[0] != b[0] {
        a[0] < b[0]
    } else {
        bytes_in_order(a.drop_first(), b.drop_first())
    }
}

/// Whether the name `a` is listed no later than the name `b`: names are
/// compared by their UTF-8 bytes.
pub open spec fn names_in_order(a: Seq<char>, b: Seq<char>) -> bool {
    bytes_in_order(vstd::utf8::encode_utf8(a), vstd::utf8::encode_utf8(b))
}

/// Whether every name of `names` is listed no later than those that follow it.
pub open spec fn listed_in_order(names: Seq<Seq<char>>) -> bool {
    forall|i: int, j: int| 0 <= i < j < names.len() ==> names_in_order(names[i], names[j])
}

/// Of any two byte strings, one is in order with the other.
pub proof fn lemma_order_is_total(a: Seq<u8>, b: Seq<u8>)
    ensures
        bytes_in_order(a, b) || bytes_in_order(b, a),
    decreases a.len(),
{
    if a.len() > 0 && b.len() > 0 && a[0] == b[0] {
        lemma_order_is_total(a.drop_first(), b.drop_first());
    }
}

/// What is in order with something that is in order with a third is in order with the third.
pub proof fn lemma_order_is_transitive(a: Seq<u8>, b: Seq<u8>, c: Seq<u8>)
    requires
        bytes_in_order(a, b),
        bytes_in_order(b, c),
    ensures
        bytes_in_order(a, c),
    decreases a.len(),
{
    if a.len() > 0 && b.len() > 0 && c.len() > 0 && a[0] == b[0] && b[0] == c[0] {
        lemma_order_is_transitive(a.drop_first(), b.drop_first(), c.drop_first());
    }
}

/// Whether `a` is `b` or stands before it byte by byte.
fn bytes_le(a: &[u8], b: &[u8]) -> (in_order: bool)
    ensures
        in_order == bytes_in_order(a@, b@),
{
    let mut at: usize = 0;
    assert(a@.skip(0) =~= a@ && b@.skip(0) =~= b@);
    while at < a.len() && at < b.len()
        invariant
            at <= a.len(),
            at <= b.len(),
            bytes_in_order(a@, b@) == bytes_in_order(a@.skip(at as int), b@.skip(at as int)),
        decreases a.len() - at,
    {
        if a[at] != b[at] {
            return a[at] < b[at];
        }
        assert(a@.skip(at as int).drop_first() =~= a@.skip(at + 1));
        assert(b@.skip(at as int).drop_first() =~= b@.skip(at + 1));
        at += 1;
    }
    at == a.len()
}

/// Whether the name `a` is listed no later than the name `b`.
pub fn listed_before_or_with(a: &String, b: &String) -> (in_order: bool)
    ensures
        in_order == names_in_order(a@, b@),
{
    bytes_le(a.as_str().as_bytes(), b.as_str().as_bytes())
}

/// `names` as the catalogue lists them: the same names, each as often as it
/// was found, in order.
pub fn listing_order(names: &Vec<String>) -> (listing: Vec<String>)
    ensures
        listed_in_order(listing.deep_view()),
        listing.deep_view().to_multiset() == names.deep_view().to_multiset(),
{
    let mut listing: Vec<String> = Vec::new();
    let mut taken: usize = 0;
    assert(listing.deep_view() =~= names.deep_view().take(0));
    while taken < names.len()
        invariant
            taken <= names.len(),
            listed_in_order(listing.deep_view()),
            listing.deep_view().to_multiset() == names.deep_view().take(taken as int).to_multiset(),
        decreases names.len() - taken,
    {
        let name = names[taken].clone();
        let mut place: usize = 0;
        while place < listing.len() && listed_before_or_with(&listing[place], &name)
            invariant
                place <= listing.len(),
                forall|k: int| 0 <= k < place ==> names_in_order(listing.deep_view()[k], name@),
            decreases listing.len() - place,
        {
            place += 1;
        }
        let ghost before = listing.deep_view();
        listing.insert(place, name);
        proof {
            let after = listing.deep_view();
            assert(after =~= before.insert(place as int, name@));
            vstd::seq_lib::to_multiset_insert(before, place as int, name@);
            assert(names.deep_view().take(taken + 1) =~= names.deep_view().take(taken as int).push(
                name@,
            ));
            vstd::seq_lib::to_multiset_build(names.deep_view().take(taken as int), name@);
            assert forall|i: int, j: int| 0 <= i < j < after.len() implies names_in_order(
                after[i],
                after[j],
            ) by {
                if j == place {
                    assert(after[i] == before[i]);
                } else if i == place {
                    let follower = before[j - 1];
                    assert(after[j] == follower);
                    let first_later = before[place as int];
                    lemma_order_is_total(
                        vstd::utf8::encode_utf8(first_later),
                        vstd::utf8::encode_utf8(name@),
                    );
                    if j - 1 > place {
                        assert(names_in_order(before[place as int], before[j - 1]));
                        lemma_order_is_transitive(
                            vstd::utf8::encode_utf8(name@),
                            vstd::utf8::encode_utf8(first_later),
                            vstd::utf8::encode_utf8(follower),
                        );
                    }
                } else {
                    let from_i = if i < place { i } else { i - 1 };
                    let from_j = if j < place { j } else { j - 1 };
                    assert(after[i] == before[from_i]);
                    assert(after[j] == before[from_j]);
                }
            }
        }
        taken += 1;
    }
    assert(names.deep_view().take(taken as int) =~= names.deep_view());
    listing
}

} // verus!
