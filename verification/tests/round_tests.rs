use boat_light_trainer::catalog::{all_boats, asset_name, display_name, Boat};
use boat_light_trainer::deck::{count_boat, deck_is_full};
use boat_light_trainer::round::{Outcome, RoundState};

/// A deterministic full deck with Grundsitzer as the first question.
fn deck_grundsitzer_first() -> Vec<Boat> {
    let mut deck = all_boats();
    let pos = deck.iter().position(|b| *b == Boat::Grundsitzer).unwrap();
    deck.swap(0, pos);
    deck
}

fn assert_permutation(deck: &Vec<Boat>) {
    assert_eq!(deck.len(), 14);
    for b in all_boats() {
        assert_eq!(count_boat(deck, b), 1);
    }
}

#[test]
fn new_round_deck_is_permutation() {
    let s = RoundState::new_round();
    assert_permutation(s.deck());
    assert_eq!(s.cursor(), 0);
    assert!(s.is_active());
    assert!(!s.is_complete());
    assert_eq!(s.selection(), Boat::Grundsitzer);
}

#[test]
fn from_deck_accepts_a_permutation() {
    let s = RoundState::from_deck(all_boats());
    assert!(s.is_some());
    let s = s.unwrap();
    assert_eq!(s.cursor(), 0);
    assert_eq!(s.deck().len(), 14);
}

#[test]
fn from_deck_rejects_a_duplicate() {
    let mut deck = all_boats();
    deck[0] = Boat::Ankerlieger;
    deck[1] = Boat::Ankerlieger;
    assert!(RoundState::from_deck(deck).is_none());
}

#[test]
fn from_deck_rejects_a_short_deck() {
    let mut deck = all_boats();
    deck.pop();
    assert!(RoundState::from_deck(deck).is_none());
}

#[test]
fn deck_is_full_checks_counts() {
    assert!(deck_is_full(&all_boats()));
    let mut twice = all_boats();
    twice[3] = Boat::Grundsitzer;
    assert!(!deck_is_full(&twice));
    let empty: Vec<Boat> = vec![];
    assert!(!deck_is_full(&empty));
}

#[test]
fn scenario_a_wrong_answer_keeps_cursor() {
    let mut s = RoundState::from_deck(deck_grundsitzer_first()).unwrap();
    let (boat, asset) = s.current_question();
    assert_eq!(boat, Boat::Grundsitzer);
    assert_eq!(asset, "grundsitzer.png");
    s.set_selection(Boat::Ankerlieger);
    assert_eq!(s.submit(), Outcome::Incorrect);
    assert_eq!(s.cursor(), 0);
}

#[test]
fn scenario_b_correct_answer_advances() {
    let mut s = RoundState::from_deck(deck_grundsitzer_first()).unwrap();
    s.set_selection(Boat::Ankerlieger);
    assert_eq!(s.submit(), Outcome::Incorrect);
    assert_eq!(s.cursor(), 0);
    s.set_selection(Boat::Grundsitzer);
    assert_eq!(s.submit(), Outcome::Correct);
    s.advance();
    assert_eq!(s.cursor(), 1);
}

#[test]
fn scenario_c_fourteen_correct_answers_complete_the_round() {
    let mut s = RoundState::new_round();
    for i in 0..14 {
        assert!(!s.is_complete());
        assert_eq!(s.cursor(), i);
        let (boat, _) = s.current_question();
        s.set_selection(boat);
        assert_eq!(s.submit(), Outcome::Correct);
        s.advance();
    }
    assert!(s.is_complete());
    assert!(!s.is_active());
    assert_eq!(s.cursor(), 14);
}

#[test]
fn scenario_d_reset_restarts_the_round() {
    let mut s = RoundState::new_round();
    for _ in 0..14 {
        let (boat, _) = s.current_question();
        s.set_selection(boat);
        assert_eq!(s.submit(), Outcome::Correct);
        s.advance();
    }
    assert!(s.is_complete());
    s.reset();
    assert!(!s.is_complete());
    assert!(s.is_active());
    assert_eq!(s.cursor(), 0);
    assert_permutation(s.deck());
}

#[test]
fn incorrect_submissions_may_be_repeated() {
    let mut s = RoundState::from_deck(deck_grundsitzer_first()).unwrap();
    s.set_selection(Boat::TrawlendeFischer);
    assert_eq!(s.submit(), Outcome::Incorrect);
    assert_eq!(s.submit(), Outcome::Incorrect);
    assert_eq!(s.cursor(), 0);
    s.set_selection(Boat::Grundsitzer);
    assert_eq!(s.submit(), Outcome::Correct);
}

#[test]
fn set_selection_overwrites_the_previous_choice() {
    let mut s = RoundState::new_round();
    s.set_selection(Boat::Lostenfahrzeug);
    assert_eq!(s.selection(), Boat::Lostenfahrzeug);
    s.set_selection(Boat::Schleppverband);
    assert_eq!(s.selection(), Boat::Schleppverband);
    assert_eq!(s.cursor(), 0);
}

#[test]
fn all_boats_lists_the_catalog_in_order() {
    let boats = all_boats();
    assert_eq!(boats.len(), 14);
    assert_eq!(boats[0], Boat::SegelfahrzeugUnter7m);
    assert_eq!(boats[5], Boat::Lostenfahrzeug);
    assert_eq!(boats[13], Boat::Schleppverband);
}

#[test]
fn display_names_are_the_canonical_labels() {
    assert_eq!(display_name(Boat::SegelfahrzeugUnter7m), "Segelfahrzeug unter 7m");
    assert_eq!(display_name(Boat::SegelfahrzeugBis20m), "Segelfahrzeug bis 20m");
    assert_eq!(display_name(Boat::SegelfahrzeugUeber20m), "Segelfahrzeug über 20m");
    assert_eq!(display_name(Boat::MaschinenfahrzeugBis50m), "Maschinenfahrzeug bis 50m");
    assert_eq!(display_name(Boat::MaschinenfahrzeugUeber50m), "Maschinenfahrzeug über 50m");
    assert_eq!(display_name(Boat::Lostenfahrzeug), "Lostenfahrzeug");
    assert_eq!(display_name(Boat::NichtTrawlendeFischer), "Nicht trawlende Fischer");
    assert_eq!(display_name(Boat::TrawlendeFischer), "Trawlende Fischer");
    assert_eq!(display_name(Boat::Manoevrierbehindert), "Manövrierbehindert");
    assert_eq!(display_name(Boat::Manoevrierunfaehig), "Manövrierunfähig");
    assert_eq!(display_name(Boat::Tiefgangbehindert), "Tiefgangbehindert");
    assert_eq!(display_name(Boat::Ankerlieger), "Ankerlieger");
    assert_eq!(display_name(Boat::Grundsitzer), "Grundsitzer");
    assert_eq!(display_name(Boat::Schleppverband), "Schleppverband");
}

#[test]
fn asset_names_point_at_the_bundled_images() {
    assert_eq!(asset_name(Boat::SegelfahrzeugUnter7m), "segelfahrzeug-unter-7m.png");
    assert_eq!(asset_name(Boat::SegelfahrzeugBis20m), "segelfahrzeuge-bis-20m.png");
    assert_eq!(asset_name(Boat::SegelfahrzeugUeber20m), "segelfahrzeuge-ueber-20m.png");
    assert_eq!(asset_name(Boat::MaschinenfahrzeugBis50m), "maschinenfahrzeuge-bis-50m.png");
    assert_eq!(asset_name(Boat::MaschinenfahrzeugUeber50m), "maschinenfahrzeuge-ueber-50m.png");
    assert_eq!(asset_name(Boat::Lostenfahrzeug), "lotsenfahrzeuge.png");
    assert_eq!(
        asset_name(Boat::NichtTrawlendeFischer),
        "nichttrawlende-fischer-kein-schleppnetz.png"
    );
    assert_eq!(asset_name(Boat::TrawlendeFischer), "trawlende-fischer-schleppnetz.png");
    assert_eq!(asset_name(Boat::Manoevrierbehindert), "manoevrierbehindertes-fahrzeug.png");
    assert_eq!(asset_name(Boat::Manoevrierunfaehig), "manoevrierunfaehiges-fahrzeug.png");
    assert_eq!(asset_name(Boat::Tiefgangbehindert), "tiefgangbehindertes-fahrzeug.png");
    assert_eq!(asset_name(Boat::Ankerlieger), "ankerlieger.png");
    assert_eq!(asset_name(Boat::Grundsitzer), "grundsitzer.png");
    assert_eq!(asset_name(Boat::Schleppverband), "schleppverband.png");
}

#[test]
fn count_boat_counts_occurrences() {
    let deck = vec![Boat::Ankerlieger, Boat::Grundsitzer, Boat::Ankerlieger];
    assert_eq!(count_boat(&deck, Boat::Ankerlieger), 2);
    assert_eq!(count_boat(&deck, Boat::Grundsitzer), 1);
    assert_eq!(count_boat(&deck, Boat::Schleppverband), 0);
}

#[test]
fn submit_matches_each_selection_exactly() {
    let s = RoundState::from_deck(deck_grundsitzer_first()).unwrap();
    for v in all_boats() {
        let mut t = RoundState::from_deck(deck_grundsitzer_first()).unwrap();
        t.set_selection(v);
        let expected = if v == s.current_question().0 {
            Outcome::Correct
        } else {
            Outcome::Incorrect
        };
        assert_eq!(t.submit(), expected);
    }
}
