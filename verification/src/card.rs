//! Card identities: rank, suit and the card that pairs them.

use vstd::prelude::*;
use vstd::string::StringExecFns;

verus! {

/// The rank of a card. `Joker` is the one rank that belongs to no suit.
#[derive(Debug, Copy, Clone, PartialEq, Eq, Structural)]
pub enum Rank {
    King,
    Queen,
    Jack,
    Ten,
    Nine,
    Eight,
    Seven,
    Six,
    Five,
    Four,
    Three,
    Two,
    Ace,
    Joker,
}

/// The suit of a card. `NoSuite` is what a joker has in place of a suit.
#[derive(Debug, Copy, Clone, PartialEq, Eq, Structural)]
pub enum Suite {
    Heart,
    Diamond,
    Club,
    Spade,
    NoSuite,
}

/// A card is nothing but its rank and its suit.
#[derive(Debug, Copy, Clone, PartialEq, Eq, Structural)]
pub struct Card {
    pub rank: Rank,
    pub suite: Suite,
}

impl Rank {
    /// The thirteen ordinary ranks in canonical order, King first and Ace last.
    pub open spec fn standard_ranks() -> Seq<Rank> {
        seq![
            Rank::King,
            Rank::Queen,
            Rank::Jack,
            Rank::Ten,
            Rank::Nine,
            Rank::Eight,
            Rank::Seven,
            Rank::Six,
            Rank::Five,
            Rank::Four,
            Rank::Three,
            Rank::Two,
            Rank::Ace,
        ]
    }

    /// The position of an ordinary rank in canonical order; 13 for the joker.
    pub open spec fn canonical_index(self) -> int {
        match self {
            Rank::King => 0,
            Rank::Queen => 1,
            Rank::Jack => 2,
            Rank::Ten => 3,
            Rank::Nine => 4,
            Rank::Eight => 5,
            Rank::Seven => 6,
            Rank::Six => 7,
            Rank::Five => 8,
            Rank::Four => 9,
            Rank::Three => 10,
            Rank::Two => 11,
            Rank::Ace => 12,
            Rank::Joker => 13,
        }
    }

    /// Canonical order lists each ordinary rank once: the rank at a position
    /// has that position as its index.
    pub proof fn lemma_standard_ranks()
        ensures
            Rank::standard_ranks().len() == 13,
            forall|i: int|
                0 <= i < 13 ==> (#[trigger] Rank::standard_ranks()[i]).canonical_index() == i,
            forall|rank: Rank|
                rank != Rank::Joker ==> #[trigger] Rank::standard_ranks()[rank.canonical_index()]
                    == rank,
    {
    }

    /// The characters that stand for a rank: digits for the numbered ranks,
    /// a letter for the face ranks and the ace, the whole word for the joker.
    pub open spec fn token(self) -> Seq<char> {
        match self {
            Rank::King => seq!['K'],
            Rank::Queen => seq!['Q'],
            Rank::Jack => seq!['J'],
            Rank::Ten => seq!['1', '0'],
            Rank::Nine => seq!['9'],
            Rank::Eight => seq!['8'],
            Rank::Seven => seq!['7'],
            Rank::Six => seq!['6'],
            Rank::Five => seq!['5'],
            Rank::Four => seq!['4'],
            Rank::Three => seq!['3'],
            Rank::Two => seq!['2'],
            Rank::Ace => seq!['A'],
            Rank::Joker => seq!['J', 'o', 'k', 'e', 'r'],
        }
    }

    /// The token of a rank as a string slice.
    pub fn token_str(&self) -> (token: &'static str)
        ensures
            token@ == self.token(),
    {
        proof {
            reveal_strlit("K");
            reveal_strlit("Q");
            reveal_strlit("J");
            reveal_strlit("10");
            reveal_strlit("9");
            reveal_strlit("8");
            reveal_strlit("7");
            reveal_strlit("6");
            reveal_strlit("5");
            reveal_strlit("4");
            reveal_strlit("3");
            reveal_strlit("2");
            reveal_strlit("A");
            reveal_strlit("Joker");
        }
        match self {
            Rank::King => "K",
            Rank::Queen => "Q",
            Rank::Jack => "J",
            Rank::Ten => "10",
            Rank::Nine => "9",
            Rank::Eight => "8",
            Rank::Seven => "7",
            Rank::Six => "6",
            Rank::Five => "5",
            Rank::Four => "4",
            Rank::Three => "3",
            Rank::Two => "2",
            Rank::Ace => "A",
            Rank::Joker => "Joker",
        }
    }

    /// The thirteen ordinary ranks, King first and Ace last.
    pub fn get_all_ranks_no_joker() -> (ranks: [Rank; 13])
        ensures
            ranks@ == Rank::standard_ranks(),
    {
        [
            Rank::King,
            Rank::Queen,
            Rank::Jack,
            Rank::Ten,
            Rank::Nine,
            Rank::Eight,
            Rank::Seven,
            Rank::Six,
            Rank::Five,
            Rank::Four,
            Rank::Three,
            Rank::Two,
            Rank::Ace,
        ]
    }

    /// The thirteen ordinary ranks in canonical order, then the joker.
    pub fn get_all_ranks() -> (ranks: [Rank; 14])
        ensures
            ranks@ == Rank::standard_ranks().push(Rank::Joker),
    {
        [
            Rank::King,
            Rank::Queen,
            Rank::Jack,
            Rank::Ten,
            Rank::Nine,
            Rank::Eight,
            Rank::Seven,
            Rank::Six,
            Rank::Five,
            Rank::Four,
            Rank::Three,
            Rank::Two,
            Rank::Ace,
            Rank::Joker,
        ]
    }
}

impl Suite {
    /// The four ordinary suits in canonical order.
    pub open spec fn standard_suites() -> Seq<Suite> {
        seq![Suite::Heart, Suite::Diamond, Suite::Club, Suite::Spade]
    }

    /// The position of an ordinary suit in canonical order; 4 for `NoSuite`.
    pub open spec fn canonical_index(self) -> int {
        match self {
            Suite::Heart => 0,
            Suite::Diamond => 1,
            Suite::Club => 2,
            Suite::Spade => 3,
            Suite::NoSuite => 4,
        }
    }

    /// Canonical order lists each ordinary suit once: the suit at a position
    /// has that position as its index.
    pub proof fn lemma_standard_suites()
        ensures
            Suite::standard_suites().len() == 4,
            forall|i: int|
                0 <= i < 4 ==> (#[trigger] Suite::standard_suites()[i]).canonical_index() == i,
            forall|suite: Suite|
                suite != Suite::NoSuite ==> #[trigger] Suite::standard_suites()[suite.canonical_index()]
                    == suite,
    {
    }

    /// The characters that stand for a suit: its symbol followed by the
    /// variation selector that asks for the coloured form; nothing for `NoSuite`.
    pub open spec fn glyph(self) -> Seq<char> {
        match self {
            Suite::Heart => seq!['\u{2665}', '\u{fe0f}'],
            Suite::Diamond => seq!['\u{2666}', '\u{fe0f}'],
            Suite::Club => seq!['\u{2663}', '\u{fe0f}'],
            Suite::Spade => seq!['\u{2660}', '\u{fe0f}'],
            Suite::NoSuite => seq![],
        }
    }

    /// The glyph of a suit as a string slice.
    pub fn glyph_str(&self) -> (glyph: &'static str)
        ensures
            glyph@ == self.glyph(),
    {
        proof {
            reveal_strlit("\u{2665}\u{fe0f}");
            reveal_strlit("\u{2666}\u{fe0f}");
            reveal_strlit("\u{2663}\u{fe0f}");
            reveal_strlit("\u{2660}\u{fe0f}");
            reveal_strlit("");
        }
        match self {
            Suite::Heart => "\u{2665}\u{fe0f}",
            Suite::Diamond => "\u{2666}\u{fe0f}",
            Suite::Club => "\u{2663}\u{fe0f}",
            Suite::Spade => "\u{2660}\u{fe0f}",
            Suite::NoSuite => "",
        }
    }

    /// The four ordinary suits: Heart, Diamond, Club, Spade.
    pub fn get_all_suites() -> (suites: [Suite; 4])
        ensures
            suites@ == Suite::standard_suites(),
    {
        [Suite::Heart, Suite::Diamond, Suite::Club, Suite::Spade]
    }
}

impl Card {
    /// Pairs a rank with a suit. Any pairing is accepted.
    pub fn new(rank: Rank, suite: Suite) -> (card: Card)
        ensures
            card == (Card { rank, suite }),
    {
        Card { rank, suite }
    }

    /// Whether the card is one of the 52 of a standard deck: it has an
    /// ordinary rank and an ordinary suit.
    pub open spec fn is_standard(self) -> bool {
        self.rank != Rank::Joker && self.suite != Suite::NoSuite
    }

    /// The text of a card: the token of its rank, then the glyph of its suit.
    pub open spec fn text(self) -> Seq<char> {
        self.rank.token() + self.suite.glyph()
    }

    /// Renders the card as a short token such as `10` followed by a heart.
    pub fn to_string(&self) -> (text: String)
        ensures
            text@ == self.text(),
    {
        let rank = self.rank.token_str();
        let suite = self.suite.glyph_str();
        String::from_str(rank).concat(suite)
    }
}

} // verus!
