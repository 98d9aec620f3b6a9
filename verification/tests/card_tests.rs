use card_deck::{Card, Rank, Suite};

#[test]
fn ranks_without_joker_are_in_canonical_order() {
    assert_eq!(
        Rank::get_all_ranks_no_joker(),
        [
            Rank::King,
            Rank::Queen,
            Rank::Jack,
            Rank::Ten,
            Rank::Nine,
            Rank::Eight,
            Rank::Seven,
            Rank::Six,
            Rank::Five,
            Rank::Four,
            Rank::Three,
            Rank::Two,
            Rank::Ace,
        ]
    );
}

#[test]
fn ranks_with_joker_end_with_the_joker() {
    let ranks = Rank::get_all_ranks();
    assert_eq!(ranks.len(), 14);
    assert_eq!(ranks[..13], Rank::get_all_ranks_no_joker()[..]);
    assert_eq!(ranks[13], Rank::Joker);
}

#[test]
fn suites_are_in_canonical_order() {
    assert_eq!(
        Suite::get_all_suites(),
        [Suite::Heart, Suite::Diamond, Suite::Club, Suite::Spade]
    );
}

#[test]
fn new_card_keeps_rank_and_suite() {
    let card = Card::new(Rank::Nine, Suite::Club);
    assert_eq!(card.rank, Rank::Nine);
    assert_eq!(card.suite, Suite::Club);
    assert_eq!(
        card,
        Card {
            rank: Rank::Nine,
            suite: Suite::Club
        }
    );
}

#[test]
fn any_pairing_is_accepted() {
    let odd = Card::new(Rank::Joker, Suite::Heart);
    assert_eq!(odd.rank, Rank::Joker);
    assert_eq!(odd.suite, Suite::Heart);
    let bare = Card::new(Rank::Ace, Suite::NoSuite);
    assert_eq!(bare.rank, Rank::Ace);
    assert_eq!(bare.suite, Suite::NoSuite);
}

#[test]
fn cards_are_equal_when_rank_and_suite_are() {
    assert_eq!(
        Card::new(Rank::Two, Suite::Spade),
        Card::new(Rank::Two, Suite::Spade)
    );
    assert_ne!(
        Card::new(Rank::Two, Suite::Spade),
        Card::new(Rank::Three, Suite::Spade)
    );
    assert_ne!(
        Card::new(Rank::Two, Suite::Spade),
        Card::new(Rank::Two, Suite::Club)
    );
}

#[test]
fn rank_tokens() {
    let expected = [
        "K", "Q", "J", "10", "9", "8", "7", "6", "5", "4", "3", "2", "A", "Joker",
    ];
    let ranks = Rank::get_all_ranks();
    for i in 0..14 {
        assert_eq!(ranks[i].token_str(), expected[i]);
        assert_eq!(Card::new(ranks[i], Suite::NoSuite).to_string(), expected[i]);
    }
}

#[test]
fn suite_glyphs() {
    assert_eq!(Suite::Heart.glyph_str(), "\u{2665}\u{fe0f}");
    assert_eq!(Suite::Diamond.glyph_str(), "\u{2666}\u{fe0f}");
    assert_eq!(Suite::Club.glyph_str(), "\u{2663}\u{fe0f}");
    assert_eq!(Suite::Spade.glyph_str(), "\u{2660}\u{fe0f}");
    assert_eq!(Suite::NoSuite.glyph_str(), "");
}

#[test]
fn card_text_is_token_then_glyph() {
    assert_eq!(
        Card::new(Rank::King, Suite::Heart).to_string(),
        "K\u{2665}\u{fe0f}"
    );
    assert_eq!(
        Card::new(Rank::Ten, Suite::Diamond).to_string(),
        "10\u{2666}\u{fe0f}"
    );
    assert_eq!(
        Card::new(Rank::Two, Suite::Club).to_string(),
        "2\u{2663}\u{fe0f}"
    );
    assert_eq!(
        Card::new(Rank::Ace, Suite::Spade).to_string(),
        "A\u{2660}\u{fe0f}"
    );
    assert_eq!(Card::new(Rank::Joker, Suite::NoSuite).to_string(), "Joker");
    assert_eq!(
        Card::new(Rank::Joker, Suite::Spade).to_string(),
        "Joker\u{2660}\u{fe0f}"
    );
}

#[test]
fn card_text_is_the_same_each_time() {
    let card = Card::new(Rank::Queen, Suite::Spade);
    assert_eq!(card.to_string(), card.to_string());
    assert_eq!(card.to_string().chars().count(), 3);
}
