//! The round controller: one playthrough of all fourteen vessel categories in
//! shuffled order, advancing only on a correct answer.

use vstd::prelude::*;
use crate::catalog::{Boat, all_boats, asset_name, asset_name_spec, catalog};
use crate::deck::{deck_is_full, is_full_deck, lemma_catalog_is_full_deck, shuffle_boats};

verus! {

/// The verdict of comparing the user's selection with the current question's
/// true vessel category.
#[derive(Debug, Copy, Clone, PartialEq, Eq, Structural)]
pub enum Outcome {
    Correct,
    Incorrect,
}

/// The mathematical model of a round: the shuffled deck, the cursor into it,
/// and the user's current selection.
pub ghost struct RoundModel {
    pub deck: Seq<Boat>,
    pub cursor: int,
    pub selection: Boat,
}

/// The verdict a submission earns in state `m`: `Correct` exactly when the
/// selection equals the vessel category at the cursor.
pub open spec fn outcome_for(m: RoundModel) -> Outcome {
    if m.selection == m.deck[m.cursor] {
        Outcome::Correct
    } else {
        Outcome::Incorrect
    }
}

/// One round of the quiz: a shuffled full deck, a cursor that counts the
/// questions answered correctly so far, and the user's current selection.
pub struct RoundState {
    deck: Vec<Boat>,
    cursor: usize,
    selection: Boat,
}

impl View for RoundState {
    type V = RoundModel;

    closed spec fn view(&self) -> RoundModel {
        RoundModel { deck: self.deck@, cursor: self.cursor as int, selection: self.selection }
    }
}

impl RoundState {
    /// The round invariant: the deck is a permutation of the catalog and the
    /// cursor lies between 0 and the deck length.
    pub open spec fn inv(self) -> bool {
        &&& is_full_deck(self@.deck)
        &&& 0 <= self@.cursor <= self@.deck.len()
    }

    /// The round is complete when the cursor has passed the last deck entry.
    pub open spec fn complete(self) -> bool {
        self@.cursor == self@.deck.len()
    }

    /// Starts a fresh round: a newly shuffled full deck, cursor at 0, and the
    /// placeholder selection.
    pub fn new_round() -> (s: RoundState)
        ensures
            s.inv(),
            is_full_deck(s@.deck),
            s@.cursor == 0,
            s@.selection == Boat::Grundsitzer,
    {
        let mut deck = all_boats();
        proof {
            lemma_catalog_is_full_deck();
        }
        shuffle_boats(&mut deck);
        RoundState { deck, cursor: 0, selection: Boat::Grundsitzer }
    }

    /// Starts a round over a caller-supplied deck, so that deterministic decks
    /// can stand in for the random shuffle. Succeeds exactly when the deck is
    /// a permutation of the catalog.
    pub fn from_deck(deck: Vec<Boat>) -> (r: Option<RoundState>)
        ensures
            r is Some <==> is_full_deck(deck@),
            (match r {
                Some(s) => s.inv() && s@.deck == deck@ && s@.cursor == 0
                    && s@.selection == Boat::Grundsitzer,
                None => !is_full_deck(deck@),
            }),
    {
        if deck_is_full(&deck) {
            Some(RoundState { deck, cursor: 0, selection: Boat::Grundsitzer })
        } else {
            None
        }
    }

    /// The current question: the deck entry at the cursor together with the
    /// name of its image asset. Only meaningful while the round is in
    /// progress; callers check `is_complete` first.
    pub fn current_question(&self) -> (q: (Boat, &'static str))
        requires
            self.inv(),
            !self.complete(),
        ensures
            q.0 == self@.deck[self@.cursor],
            q.1@ == asset_name_spec(q.0),
    {
        let b = self.deck[self.cursor];
        (b, asset_name(b))
    }

    /// Records the user's selection. Accepts any vessel category and touches
    /// neither the deck nor the cursor.
    pub fn set_selection(&mut self, b: Boat)
        ensures
            final(self)@.deck == old(self)@.deck,
            final(self)@.cursor == old(self)@.cursor,
            final(self)@.selection == b,
            old(self).inv() ==> final(self).inv(),
    {
        self.selection = b;
    }

    /// Judges the current selection against the current question: `Correct`
    /// exactly when they are the same vessel category. Pure; the state is
    /// unchanged.
    pub fn submit(&self) -> (o: Outcome)
        requires
            self.inv(),
            !self.complete(),
        ensures
            o == outcome_for(self@),
            o == Outcome::Correct <==> self@.selection == self@.deck[self@.cursor],
    {
        if self.selection == self.deck[self.cursor] {
            Outcome::Correct
        } else {
            Outcome::Incorrect
        }
    }

    /// Moves to the next question. Allowed only when a submission on the
    /// current, unadvanced state would be judged `Correct`; the cursor grows
    /// by exactly one and the deck and selection stay as they were.
    pub fn advance(&mut self)
        requires
            old(self).inv(),
            !old(self).complete(),
            outcome_for(old(self)@) == Outcome::Correct,
        ensures
            final(self).inv(),
            final(self)@.deck == old(self)@.deck,
            final(self)@.selection == old(self)@.selection,
            final(self)@.cursor == old(self)@.cursor + 1,
    {
        self.cursor = self.cursor + 1;
    }

    /// Whether the round is complete: true exactly when the cursor equals the
    /// deck length.
    pub fn is_complete(&self) -> (r: bool)
        ensures
            r == self.complete(),
    {
        self.cursor == self.deck.len()
    }

    /// Whether the round is still in progress: the negation of `is_complete`.
    pub fn is_active(&self) -> (r: bool)
        ensures
            r == !self.complete(),
    {
        self.cursor != self.deck.len()
    }

    /// Discards the round and starts a fresh one, exactly as `new_round`
    /// does: reshuffled full deck, cursor at 0, placeholder selection.
    pub fn reset(&mut self)
        ensures
            final(self).inv(),
            is_full_deck(final(self)@.deck),
            final(self)@.cursor == 0,
            final(self)@.selection == Boat::Grundsitzer,
    {
        *self = Self::new_round();
    }

    /// The number of questions answered correctly so far.
    pub fn cursor(&self) -> (c: usize)
        ensures
            c == self@.cursor,
    {
        self.cursor
    }

    /// The user's current selection.
    pub fn selection(&self) -> (b: Boat)
        ensures
            b == self@.selection,
    {
        self.selection
    }

    /// The round's working deck.
    pub fn deck(&self) -> (d: &Vec<Boat>)
        ensures
            d@ == self@.deck,
    {
        &self.deck
    }
}

/// Outcome law: after the selection is set to `v`, a submission is judged
/// `Correct` exactly when `v` is the vessel category of the current question.
pub proof fn lemma_outcome_of_selection(m: RoundModel, v: Boat)
    requires
        0 <= m.cursor < m.deck.len(),
    ensures
        (outcome_for(RoundModel { deck: m.deck, cursor: m.cursor, selection: v })
            == Outcome::Correct) <==> v == m.deck[m.cursor],
{
}

} // verus!
