//! Decks: a round's working sequence of vessel categories. A full deck holds
//! every catalog entry exactly once, in some order.

use vstd::prelude::*;
use crate::catalog::{Boat, all_boats, catalog, catalog_index, lemma_catalog_index};
use rand::seq::SliceRandom;

verus! {

/// How many times `b` occurs in `s`.
pub open spec fn count_of(s: Seq<Boat>, b: Boat) -> nat
    decreases s.len(),
{
    if s.len() == 0 {
        0
    } else {
        count_of(s.drop_last(), b) + (if s.last() == b { 1nat } else { 0nat })
    }
}

/// A full deck is a permutation of the catalog: fourteen entries, each vessel
/// category occurring exactly once.
pub open spec fn is_full_deck(s: Seq<Boat>) -> bool {
    &&& s.len() == catalog().len()
    &&& forall|b: Boat| count_of(s, b) == 1
}

/// Appending one entry raises its count by one and leaves every other count
/// unchanged.
pub proof fn lemma_count_push(s: Seq<Boat>, x: Boat, b: Boat)
    ensures
        count_of(s.push(x), b) == count_of(s, b) + (if x == b { 1nat } else { 0nat }),
{
    assert(s.push(x).drop_last() =~= s);
    assert(s.push(x).last() == x);
}

/// The catalog itself is a full deck: each category occurs in it exactly once.
pub proof fn lemma_catalog_is_full_deck()
    ensures
        is_full_deck(catalog()),
{
    assert forall|b: Boat| count_of(catalog(), b) == 1 by {
        let s0 = Seq::<Boat>::empty();
        let s1 = s0.push(Boat::SegelfahrzeugUnter7m);
        let s2 = s1.push(Boat::SegelfahrzeugBis20m);
        let s3 = s2.push(Boat::SegelfahrzeugUeber20m);
        let s4 = s3.push(Boat::MaschinenfahrzeugBis50m);
        let s5 = s4.push(Boat::MaschinenfahrzeugUeber50m);
        let s6 = s5.push(Boat::Lostenfahrzeug);
        let s7 = s6.push(Boat::NichtTrawlendeFischer);
        let s8 = s7.push(Boat::TrawlendeFischer);
        let s9 = s8.push(Boat::Manoevrierbehindert);
        let s10 = s9.push(Boat::Manoevrierunfaehig);
        let s11 = s10.push(Boat::Tiefgangbehindert);
        let s12 = s11.push(Boat::Ankerlieger);
        let s13 = s12.push(Boat::Grundsitzer);
        let s14 = s13.push(Boat::Schleppverband);
        lemma_count_push(s0, Boat::SegelfahrzeugUnter7m, b);
        lemma_count_push(s1, Boat::SegelfahrzeugBis20m, b);
        lemma_count_push(s2, Boat::SegelfahrzeugUeber20m, b);
        lemma_count_push(s3, Boat::MaschinenfahrzeugBis50m, b);
        lemma_count_push(s4, Boat::MaschinenfahrzeugUeber50m, b);
        lemma_count_push(s5, Boat::Lostenfahrzeug, b);
        lemma_count_push(s6, Boat::NichtTrawlendeFischer, b);
        lemma_count_push(s7, Boat::TrawlendeFischer, b);
        lemma_count_push(s8, Boat::Manoevrierbehindert, b);
        lemma_count_push(s9, Boat::Manoevrierunfaehig, b);
        lemma_count_push(s10, Boat::Tiefgangbehindert, b);
        lemma_count_push(s11, Boat::Ankerlieger, b);
        lemma_count_push(s12, Boat::Grundsitzer, b);
        lemma_count_push(s13, Boat::Schleppverband, b);
        assert(count_of(s0, b) == 0);
        assert(s14 =~= catalog());
    }
}

/// `count_of` agrees with the multiset drawn from the sequence.
pub proof fn lemma_count_is_multiset_count(s: Seq<Boat>, b: Boat)
    ensures
        count_of(s, b) == s.to_multiset().count(b),
    decreases s.len(),
{
    broadcast use vstd::multiset::group_multiset_axioms;
    broadcast use vstd::seq_lib::group_to_multiset_ensures;

    if s.len() == 0 {
    } else {
        let t = s.drop_last();
        lemma_count_is_multiset_count(t, b);
        assert(t.push(s.last()) =~= s);
        assert(t.push(s.last()).to_multiset() =~= t.to_multiset().insert(s.last()));
        vstd::multiset::lemma_insert_increases_count_by_1(t.to_multiset(), s.last());
        if s.last() != b {
            vstd::multiset::lemma_insert_other_elements_unchanged(t.to_multiset(), s.last(), b);
        }
    }
}

/// Permutation law: a full deck and the catalog hold the same multiset of
/// vessel categories.
pub proof fn lemma_full_deck_is_catalog_permutation(s: Seq<Boat>)
    requires
        is_full_deck(s),
    ensures
        s.to_multiset() == catalog().to_multiset(),
{
    broadcast use vstd::multiset::group_multiset_axioms;

    lemma_catalog_is_full_deck();
    assert forall|b: Boat| s.to_multiset().count(b) == catalog().to_multiset().count(b) by {
        lemma_count_is_multiset_count(s, b);
        lemma_count_is_multiset_count(catalog(), b);
    }
    assert(s.to_multiset() =~= catalog().to_multiset());
}

/// How many times `b` occurs in `deck`.
pub fn count_boat(deck: &Vec<Boat>, b: Boat) -> (n: usize)
    ensures
        n == count_of(deck@, b),
{
    let mut n: usize = 0;
    let mut i: usize = 0;
    while i < deck.len()
        invariant
            i <= deck@.len(),
            n <= i,
            n == count_of(deck@.subrange(0, i as int), b),
        decreases deck@.len() - i,
    {
        proof {
            assert(deck@.subrange(0, (i + 1) as int)
                =~= deck@.subrange(0, i as int).push(deck@[i as int]));
            lemma_count_push(deck@.subrange(0, i as int), deck@[i as int], b);
        }
        if deck[i] == b {
            n = n + 1;
        }
        i = i + 1;
    }
    proof {
        assert(deck@.subrange(0, deck@.len() as int) =~= deck@);
    }
    n
}

/// Whether `deck` is a full deck: a permutation of the catalog in which every
/// vessel category occurs exactly once.
pub fn deck_is_full(deck: &Vec<Boat>) -> (r: bool)
    ensures
        r == is_full_deck(deck@),
{
    if deck.len() != 14 {
        return false;
    }
    let cat = all_boats();
    let mut i: usize = 0;
    while i < cat.len()
        invariant
            cat@ == catalog(),
            deck@.len() == 14,
            i <= cat@.len(),
            forall|j: int| 0 <= j < i ==> count_of(deck@, #[trigger] catalog()[j]) == 1,
        decreases cat@.len() - i,
    {
        if count_boat(deck, cat[i]) != 1 {
            return false;
        }
        i = i + 1;
    }
    proof {
        assert forall|b: Boat| count_of(deck@, b) == 1 by {
            lemma_catalog_index(b);
        }
    }
    true
}

/// Relies on rand's `SliceRandom::shuffle`: it rearranges the slice in place,
/// so the new contents are a permutation of the old ones.
#[verifier::external_body]
pub(crate) fn shuffle_boats(deck: &mut Vec<Boat>)
    ensures
        final(deck)@.len() == old(deck)@.len(),
        forall|b: Boat| count_of(final(deck)@, b) == count_of(old(deck)@, b),
{
    deck.shuffle(&mut rand::thread_rng());
}

} // verus!
