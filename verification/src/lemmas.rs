//! What holds of the decks that the constructors build and of the deck
//! operations taken together, stated over the sequence model and proved.

use crate::card::{Card, Rank, Suite};
use crate::deck::{
    bottom_of, joker, repeated_standard_cards, standard_cards, standard_cards_with_jokers, top_of,
    with_bottom, without_bottom, without_top,
};
use vstd::prelude::*;
use vstd::seq_lib::lemma_multiset_commutative;

verus! {

/// The index of a standard card in a standard deck, counted from the bottom.
pub open spec fn standard_index(card: Card) -> int {
    13 * card.suite.canonical_index() + card.rank.canonical_index()
}

/// A standard deck holds 52 cards, all of them standard, and each standard
/// card lies at its own index.
pub proof fn lemma_standard_cards_layout()
    ensures
        standard_cards().len() == 52,
        forall|i: int|
            0 <= i < 52 ==> (#[trigger] standard_cards()[i]).is_standard() && standard_index(
                standard_cards()[i],
            ) == i,
        forall|card: Card|
            card.is_standard() ==> 0 <= #[trigger] standard_index(card) < 52
                && standard_cards()[standard_index(card)] == card,
{
    Rank::lemma_standard_ranks();
    Suite::lemma_standard_suites();
}

/// A standard deck holds 52 cards and no card twice.
pub proof fn lemma_standard_cards_distinct()
    ensures
        standard_cards().len() == 52,
        standard_cards().no_duplicates(),
{
    lemma_standard_cards_layout();
}

/// A standard deck holds every standard card exactly once and no other card.
pub proof fn lemma_standard_cards_count(card: Card)
    ensures
        card.is_standard() ==> standard_cards().to_multiset().count(card) == 1,
        !card.is_standard() ==> standard_cards().to_multiset().count(card) == 0,
{
    lemma_standard_cards_layout();
    lemma_standard_cards_distinct();
    standard_cards().to_multiset_ensures();
    standard_cards().lemma_multiset_has_no_duplicates();
    if card.is_standard() {
        assert(standard_cards()[standard_index(card)] == card);
    }
}

/// The top card of a standard deck is the ace of spades and its bottom card
/// the king of hearts.
pub proof fn lemma_standard_top_and_bottom()
    ensures
        top_of(standard_cards()) == Some(Card { rank: Rank::Ace, suite: Suite::Spade }),
        bottom_of(standard_cards()) == Some(Card { rank: Rank::King, suite: Suite::Heart }),
{
    lemma_standard_cards_layout();
}

/// A deck with jokers holds 54 cards: the standard deck, then the two jokers
/// as its topmost cards.
pub proof fn lemma_jokers_on_top()
    ensures
        standard_cards_with_jokers().len() == 54,
        standard_cards_with_jokers().take(52) == standard_cards(),
        standard_cards_with_jokers()[52] == joker(),
        standard_cards_with_jokers()[53] == joker(),
{
}

/// `count` decks laid together hold 52 times `count` cards: every standard
/// card exactly `count` times, and no other card.
pub proof fn lemma_repeated_standard_cards_count(count: nat, card: Card)
    ensures
        repeated_standard_cards(count).len() == 52 * count,
        card.is_standard() ==> repeated_standard_cards(count).to_multiset().count(card) == count,
        !card.is_standard() ==> repeated_standard_cards(count).to_multiset().count(card) == 0,
    decreases count,
{
    if count == 0 {
        repeated_standard_cards(0).to_multiset_ensures();
    } else {
        let below = repeated_standard_cards((count - 1) as nat);
        lemma_repeated_standard_cards_count((count - 1) as nat, card);
        lemma_standard_cards_count(card);
        assert(repeated_standard_cards(count) =~= below + standard_cards());
        lemma_multiset_commutative(below, standard_cards());
    }
}

/// The stack after `draws` draws from the top.
pub open spec fn after_draws(cards: Seq<Card>, draws: nat) -> Seq<Card>
    decreases draws,
{
    if draws == 0 {
        cards
    } else {
        without_top(after_draws(cards, (draws - 1) as nat))
    }
}

/// Drawing from a stack of L cards hands out its cards one by one from the
/// top down, each position once: the draw after `draws` earlier ones gives the
/// card that lay `draws` below the top. After L draws the stack is empty, and
/// every later draw gives nothing and leaves it empty.
pub proof fn lemma_draw_conservation(cards: Seq<Card>, draws: nat)
    ensures
        draws <= cards.len() ==> after_draws(cards, draws) == cards.take(cards.len() - draws),
        draws < cards.len() ==> top_of(after_draws(cards, draws)) == Some(
            cards[cards.len() - 1 - draws],
        ),
        draws >= cards.len() ==> after_draws(cards, draws).len() == 0 && top_of(
            after_draws(cards, draws),
        ) == None::<Card>,
    decreases draws,
{
    if draws > 0 {
        lemma_draw_conservation(cards, (draws - 1) as nat);
    }
}

/// Drawing the top card and sliding it under the deck leaves the deck as long
/// as it was, with that card as its bottom card, the next to leave from below,
/// and the other cards above it in their old order.
pub proof fn lemma_draw_then_insert_at_bottom(cards: Seq<Card>)
    requires
        cards.len() > 0,
    ensures
        top_of(cards) == Some(cards.last()),
        with_bottom(without_top(cards), cards.last()).len() == cards.len(),
        bottom_of(with_bottom(without_top(cards), cards.last())) == Some(cards.last()),
        without_bottom(with_bottom(without_top(cards), cards.last())) == cards.drop_last(),
{
}

} // verus!
