//! The deck: an ordered stack of cards, modelled as a sequence whose first
//! element is the bottom card and whose last element is the top card.

use crate::card::{Card, Rank, Suite};
use crate::lemmas::{
    lemma_jokers_on_top, lemma_repeated_standard_cards_count, lemma_standard_cards_distinct,
};
use crate::random::shuffle_cards;
use rand::thread_rng;
use vstd::prelude::*;

verus! {

/// The joker: the one card without a suit.
pub open spec fn joker() -> Card {
    Card { rank: Rank::Joker, suite: Suite::NoSuite }
}

/// The 52 cards of one standard deck, bottom first: suit by suit in canonical
/// order, and within each suit rank by rank in canonical order.
pub open spec fn standard_cards() -> Seq<Card> {
    Seq::new(
        52,
        |i: int| Card { rank: Rank::standard_ranks()[i % 13], suite: Suite::standard_suites()[i / 13] },
    )
}

/// One standard deck with two jokers above it.
pub open spec fn standard_cards_with_jokers() -> Seq<Card> {
    standard_cards().push(joker()).push(joker())
}

/// `count` standard decks laid one above the other.
pub open spec fn repeated_standard_cards(count: nat) -> Seq<Card> {
    Seq::new(52 * count, |i: int| standard_cards()[i % 52])
}

/// The top card of a stack, if it has one.
pub open spec fn top_of(cards: Seq<Card>) -> Option<Card> {
    if cards.len() > 0 {
        Some(cards.last())
    } else {
        None
    }
}

/// The stack without its top card; an empty stack stays as it is.
pub open spec fn without_top(cards: Seq<Card>) -> Seq<Card> {
    if cards.len() > 0 {
        cards.drop_last()
    } else {
        cards
    }
}

/// The bottom card of a stack, if it has one.
pub open spec fn bottom_of(cards: Seq<Card>) -> Option<Card> {
    if cards.len() > 0 {
        Some(cards.first())
    } else {
        None
    }
}

/// The stack without its bottom card; an empty stack stays as it is.
pub open spec fn without_bottom(cards: Seq<Card>) -> Seq<Card> {
    if cards.len() > 0 {
        cards.drop_first()
    } else {
        cards
    }
}

/// The stack with `card` slid under it.
pub open spec fn with_bottom(cards: Seq<Card>, card: Card) -> Seq<Card> {
    cards.insert(0, card)
}

/// How many cards a request for `amount` cards takes from a stack: all that
/// were asked for, or all that are there.
pub open spec fn draw_count(cards: Seq<Card>, amount: nat) -> nat {
    if amount <= cards.len() {
        amount
    } else {
        cards.len()
    }
}

/// The cards that a request for `amount` cards takes from the top, in the
/// order in which they leave: the top card first.
pub open spec fn drawn_from_top(cards: Seq<Card>, amount: nat) -> Seq<Card> {
    Seq::new(draw_count(cards, amount), |i: int| cards[cards.len() - 1 - i])
}

/// What is left of a stack after a request for `amount` cards.
pub open spec fn after_drawing(cards: Seq<Card>, amount: nat) -> Seq<Card> {
    cards.take(cards.len() - draw_count(cards, amount))
}

/// The index at which a card is stored so that it lies `place` cards below
/// the top card of a stack of `len` cards. A place deeper than the stack
/// reaches is the bottom, and so is any place in an empty stack.
pub open spec fn insert_position(len: nat, place: nat) -> nat {
    if place < len {
        (len - 1 - place) as nat
    } else {
        0
    }
}

/// A stack of cards. The deck owns its cards; an operation moves cards out,
/// moves cards in, or reorders them, and does nothing else to them.
#[derive(Debug)]
pub struct Deck {
    cards: Vec<Card>,
}

impl View for Deck {
    type V = Seq<Card>;

    /// The cards from the bottom of the deck to its top.
    closed spec fn view(&self) -> Seq<Card> {
        self.cards@
    }
}

impl Clone for Deck {
    /// A second deck with the same cards in the same order.
    fn clone(&self) -> (copy: Deck)
        ensures
            copy@ == self@,
    {
        let mut cards: Vec<Card> = Vec::new();
        for i in 0..self.cards.len()
            invariant
                cards@ == self.cards@.take(i as int),
        {
            cards.push(self.cards[i]);
        }
        Deck { cards }
    }
}

impl PartialEq for Deck {
    /// Two decks are equal when they hold the same cards in the same order.
    fn eq(&self, other: &Deck) -> (equal: bool) {
        if self.cards.len() != other.cards.len() {
            return false;
        }
        for i in 0..self.cards.len()
            invariant
                self.cards@.len() == other.cards@.len(),
                self.cards@.take(i as int) == other.cards@.take(i as int),
        {
            if self.cards[i] != other.cards[i] {
                return false;
            }
        }
        assert(self.cards@ =~= self.cards@.take(self.cards@.len() as int));
        assert(other.cards@ =~= other.cards@.take(other.cards@.len() as int));
        true
    }
}

impl vstd::std_specs::cmp::PartialEqSpecImpl for Deck {
    open spec fn obeys_eq_spec() -> bool {
        true
    }

    open spec fn eq_spec(&self, other: &Deck) -> bool {
        self@ == other@
    }
}

impl Deck {
    /// Creates a standard deck of 52 cards with two jokers on top of it.
    pub fn init_standard_with_jokers() -> (deck: Deck)
        ensures
            deck@ == standard_cards_with_jokers(),
            deck@.len() == 54,
            deck@.take(52) == standard_cards(),
            deck@[52] == joker(),
            deck@[53] == joker(),
    {
        let mut cards = Deck::create_standard_deck();
        cards.push(Card::new(Rank::Joker, Suite::NoSuite));
        cards.push(Card::new(Rank::Joker, Suite::NoSuite));
        proof {
            lemma_jokers_on_top();
        }
        Deck { cards }
    }

    /// Creates a standard deck of 52 cards without jokers.
    pub fn init_standard() -> (deck: Deck)
        ensures
            deck@ == standard_cards(),
            deck@.len() == 52,
            deck@.no_duplicates(),
    {
        let cards = Deck::create_standard_deck();
        proof {
            lemma_standard_cards_distinct();
        }
        Deck { cards }
    }

    /// Creates a deck of `number_of_decks` standard decks, one above the other.
    /// It holds every standard card `number_of_decks` times and no other card.
    pub fn init_standard_multiple_decks(number_of_decks: usize) -> (deck: Deck)
        ensures
            deck@ == repeated_standard_cards(number_of_decks as nat),
            deck@.len() == 52 * number_of_decks,
            forall|card: Card|
                card.is_standard() ==> #[trigger] deck@.to_multiset().count(card)
                    == number_of_decks,
            forall|card: Card| !card.is_standard() ==> #[trigger] deck@.to_multiset().count(card) == 0,
    {
        let mut cards: Vec<Card> = Vec::new();
        for built in 0..number_of_decks
            invariant
                cards@ == repeated_standard_cards(built as nat),
        {
            let mut one = Deck::create_standard_deck();
            cards.append(&mut one);
        }
        proof {
            assert forall|card: Card|
                #![trigger cards@.to_multiset().count(card)]
                cards@.to_multiset().count(card) == (if card.is_standard() {
                    number_of_decks as nat
                } else {
                    0
                }) by {
                lemma_repeated_standard_cards_count(number_of_decks as nat, card);
            }
        }
        Deck { cards }
    }

    /// Draws the card on top of the deck; `None` when the deck is empty.
    pub fn draw(&mut self) -> (card: Option<Card>)
        ensures
            card == top_of(old(self)@),
            final(self)@ == without_top(old(self)@),
    {
        self.cards.pop()
    }

    /// Draws up to `amount` cards from the top, as many as the deck has, and
    /// hands them over in the order drawn: the card that was on top first.
    pub fn draw_x_cards(&mut self, amount: usize) -> (drawn: Vec<Card>)
        ensures
            drawn@ == drawn_from_top(old(self)@, amount as nat),
            final(self)@ == after_drawing(old(self)@, amount as nat),
            amount >= old(self)@.len() ==> final(self)@.len() == 0 && drawn@ == old(self)@.reverse(),
            amount == 0 ==> drawn@.len() == 0 && final(self)@ == old(self)@,
    {
        let length = self.cards.len();
        let draw_amount = if amount <= length {
            amount
        } else {
            length
        };
        let ghost before = self.cards@;
        let mut drawn: Vec<Card> = Vec::new();
        for taken in 0..draw_amount
            invariant
                draw_amount <= before.len(),
                self.cards@ == before.take(before.len() - taken),
                drawn@ == drawn_from_top(before, taken as nat),
        {
            let card = self.cards.pop();
            drawn.push(card.unwrap());
        }
        drawn
    }

    /// Draws the card at the bottom of the deck; `None` when the deck is empty.
    pub fn draw_from_bottom(&mut self) -> (card: Option<Card>)
        ensures
            card == bottom_of(old(self)@),
            final(self)@ == without_bottom(old(self)@),
    {
        if self.cards.len() == 0 {
            return None;
        }
        Some(self.cards.remove(0))
    }

    /// Looks at the card on top of the deck without taking it.
    pub fn peek(&self) -> (card: Option<&Card>)
        ensures
            card.is_some() == (self@.len() > 0),
            card.is_some() ==> *card.unwrap() == self@.last(),
    {
        self.cards.last()
    }

    /// Slides a card under the deck.
    pub fn insert_at_bottom(&mut self, card: Card)
        ensures
            final(self)@ == with_bottom(old(self)@, card),
    {
        self.cards.insert(0, card);
    }

    /// Puts a card `place` cards below the top card: with `place` 0 it is the
    /// second card to be drawn. A place deeper than the deck reaches puts the
    /// card at the bottom; in an empty deck the card becomes the only card.
    pub fn insert_x_from_top(&mut self, place: usize, card: Card)
        ensures
            final(self)@ == old(self)@.insert(
                insert_position(old(self)@.len(), place as nat) as int,
                card,
            ),
    {
        let length = self.cards.len();
        let position = if place < length {
            length - 1 - place
        } else {
            0
        };
        self.cards.insert(position, card);
    }

    /// Reorders the cards at random. Every card stays in the deck, as often as
    /// it was there, so the deck is as long as before.
    pub fn shuffle(&mut self)
        ensures
            final(self)@.to_multiset() == old(self)@.to_multiset(),
            final(self)@.len() == old(self)@.len(),
    {
        let mut rng = thread_rng();
        shuffle_cards(&mut self.cards, &mut rng);
        proof {
            old(self)@.to_multiset_ensures();
            self@.to_multiset_ensures();
        }
    }

    /// Whether the deck holds no card.
    pub fn is_deck_empty(&self) -> (empty: bool)
        ensures
            empty == (self@.len() == 0),
    {
        self.cards.is_empty()
    }

    /// The number of cards in the deck.
    pub fn len(&self) -> (count: usize)
        ensures
            count == self@.len(),
    {
        self.cards.len()
    }

    /// Builds the 52 cards of a standard deck, bottom first: suit by suit, and
    /// within each suit rank by rank.
    fn create_standard_deck() -> (cards: Vec<Card>)
        ensures
            cards@ == standard_cards(),
    {
        let suites = Suite::get_all_suites();
        let ranks = Rank::get_all_ranks_no_joker();
        let mut cards: Vec<Card> = Vec::new();
        for s in 0..4usize
            invariant
                suites@ == Suite::standard_suites(),
                ranks@ == Rank::standard_ranks(),
                cards@ == standard_cards().take(13 * s),
        {
            for r in 0..13usize
                invariant
                    s < 4,
                    suites@ == Suite::standard_suites(),
                    ranks@ == Rank::standard_ranks(),
                    cards@ == standard_cards().take(13 * s + r),
            {
                cards.push(Card::new(ranks[r], suites[s]));
            }
        }
        cards
    }
}

} // verus!
