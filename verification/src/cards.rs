//! Card values, hands and their classification.

use vstd::prelude::*;

use crate::random::draw_between;

verus! {

/// The lowest card value.
pub const LOWEST_CARD: u8 = 2;

/// The value of an ace, which is also the highest card value.
pub const ACE: u8 = 11;

/// The value shared by the ten, jack, queen and king.
pub const TEN: u8 = 10;

/// A card value: 2 to 9 for the ranks of that number, 10 for a ten or a
/// face card, 11 for an ace.
pub open spec fn is_card_value(v: u8) -> bool {
    LOWEST_CARD <= v <= ACE
}

/// How a two-card hand is played.
#[derive(Clone, Copy, Debug, PartialEq, Eq, Structural)]
pub enum HandType {
    /// Two different values, neither of them an ace.
    Hard,
    /// Two different values, one of them an ace.
    Soft,
    /// Two equal values.
    Pair,
}

/// The classification of two card values. Equal values are a pair whatever
/// they are, so two aces are a pair and not a soft hand.
pub open spec fn hand_type_of(first: u8, second: u8) -> HandType {
    if first == second {
        HandType::Pair
    } else if first == ACE || second == ACE {
        HandType::Soft
    } else {
        HandType::Hard
    }
}

/// Classifies two card values.
pub fn classify(first: u8, second: u8) -> (hand_type: HandType)
    ensures
        hand_type == hand_type_of(first, second),
        hand_type == HandType::Pair <==> first == second,
        hand_type == HandType::Soft <==> first != second && (first == ACE || second == ACE),
        hand_type == HandType::Hard <==> first != second && first != ACE && second != ACE,
{
    if first == second {
        HandType::Pair
    } else if first == ACE || second == ACE {
        HandType::Soft
    } else {
        HandType::Hard
    }
}

/// The player's two cards, the dealer's up-card, and the classification of
/// the player's cards.
#[derive(Clone, Copy, Debug, PartialEq, Eq)]
pub struct Hand {
    pub player_cards: (u8, u8),
    pub dealer_card: u8,
    pub hand_type: HandType,
}

/// The hand made of these three cards.
pub open spec fn hand_of(first: u8, second: u8, dealer: u8) -> Hand {
    Hand {
        player_cards: (first, second),
        dealer_card: dealer,
        hand_type: hand_type_of(first, second),
    }
}

impl Hand {
    /// All three cards are card values and the classification is that of
    /// the player's cards.
    pub open spec fn wf(&self) -> bool {
        &&& is_card_value(self.player_cards.0)
        &&& is_card_value(self.player_cards.1)
        &&& is_card_value(self.dealer_card)
        &&& self.hand_type == hand_type_of(self.player_cards.0, self.player_cards.1)
    }

    /// The sum of the player's two card values, an ace counting 11.
    pub open spec fn spec_value(&self) -> int {
        self.player_cards.0 + self.player_cards.1
    }

    /// The hand with the given cards, classified.
    pub fn from_cards(first: u8, second: u8, dealer: u8) -> (hand: Hand)
        requires
            is_card_value(first),
            is_card_value(second),
            is_card_value(dealer),
        ensures
            hand == hand_of(first, second, dealer),
            hand.wf(),
    {
        Hand {
            player_cards: (first, second),
            dealer_card: dealer,
            hand_type: classify(first, second),
        }
    }

    /// Deals a hand: three card values drawn independently and uniformly
    /// from 2 to 11, the first two for the player, the third for the dealer.
    pub fn new() -> (hand: Hand)
        ensures
            hand.wf(),
    {
        let first = draw_between(LOWEST_CARD, ACE);
        let second = draw_between(LOWEST_CARD, ACE);
        let dealer = draw_between(LOWEST_CARD, ACE);
        Hand::from_cards(first, second, dealer)
    }

    /// The sum of the player's two card values.
    pub fn value(&self) -> (sum: u8)
        requires
            self.wf(),
        ensures
            sum == self.spec_value(),
    {
        self.player_cards.0 + self.player_cards.1
    }
}

/// Every pair of card values falls in exactly one class, and in the same
/// class whichever card comes first.
pub proof fn lemma_classes_partition(first: u8, second: u8)
    ensures
        hand_type_of(first, second) == HandType::Pair <==> first == second,
        hand_type_of(first, second) == HandType::Soft <==> first != second && (first == ACE
            || second == ACE),
        hand_type_of(first, second) == HandType::Hard <==> first != second && first != ACE
            && second != ACE,
        hand_type_of(first, second) == hand_type_of(second, first),
{
}

} // verus!
