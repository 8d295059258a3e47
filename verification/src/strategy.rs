//! The strategy table: one decision table for each class of hand, and the
//! lookup of the textbook decision for a hand.

use vstd::prelude::*;

use crate::cards::{hand_of, hand_type_of, is_card_value, Hand, HandType};
use crate::decision::is_decision_code;
use crate::loader::{
    all_clean, csv_records, is_first_fault, is_table_of, load_strategy_table, LoadError,
};
use crate::table::DecisionTable;

verus! {

/// The decisions for hard hands: row `n` is the total `n`, column `n` the
/// dealer's up-card `n`. Rows and columns that no hand reaches hold `X`.
pub const HARD_TABLE: &'static str = "\
X,X,X,X,X,X,X,X,X,X,X,X\n\
X,X,X,X,X,X,X,X,X,X,X,X\n\
X,X,X,X,X,X,X,X,X,X,X,X\n\
X,X,X,X,X,X,X,X,X,X,X,X\n\
X,X,H,H,H,H,H,H,H,H,H,H\n\
X,X,H,H,H,H,H,H,H,H,H,H\n\
X,X,H,H,H,H,H,H,H,H,H,H\n\
X,X,H,H,H,H,H,H,H,H,H,H\n\
X,X,H,H,H,H,H,H,H,H,H,H\n\
X,X,H,D,D,D,D,H,H,H,H,H\n\
X,X,D,D,D,D,D,D,D,D,H,H\n\
X,X,D,D,D,D,D,D,D,D,D,H\n\
X,X,H,H,S,S,S,H,H,H,H,H\n\
X,X,S,S,S,S,S,H,H,H,H,H\n\
X,X,S,S,S,S,S,H,H,H,H,H\n\
X,X,S,S,S,S,S,H,H,H,R,H\n\
X,X,S,S,S,S,S,H,H,R,R,R\n\
X,X,S,S,S,S,S,S,S,S,S,S\n\
X,X,S,S,S,S,S,S,S,S,S,S\n\
X,X,S,S,S,S,S,S,S,S,S,S\n\
X,X,S,S,S,S,S,S,S,S,S,S\n\
X,X,S,S,S,S,S,S,S,S,S,S\n\
";

/// The decisions for soft hands, laid out as the hard ones; the total
/// counts the ace as 11.
pub const SOFT_TABLE: &'static str = "\
X,X,X,X,X,X,X,X,X,X,X,X\n\
X,X,X,X,X,X,X,X,X,X,X,X\n\
X,X,X,X,X,X,X,X,X,X,X,X\n\
X,X,X,X,X,X,X,X,X,X,X,X\n\
X,X,X,X,X,X,X,X,X,X,X,X\n\
X,X,X,X,X,X,X,X,X,X,X,X\n\
X,X,X,X,X,X,X,X,X,X,X,X\n\
X,X,X,X,X,X,X,X,X,X,X,X\n\
X,X,X,X,X,X,X,X,X,X,X,X\n\
X,X,X,X,X,X,X,X,X,X,X,X\n\
X,X,X,X,X,X,X,X,X,X,X,X\n\
X,X,X,X,X,X,X,X,X,X,X,X\n\
X,X,X,X,X,X,X,X,X,X,X,X\n\
X,X,H,H,H,D,D,H,H,H,H,H\n\
X,X,H,H,H,D,D,H,H,H,H,H\n\
X,X,H,H,D,D,D,H,H,H,H,H\n\
X,X,H,H,D,D,D,H,H,H,H,H\n\
X,X,H,D,D,D,D,H,H,H,H,H\n\
X,X,S,D,D,D,D,S,S,H,H,H\n\
X,X,S,S,S,S,S,S,S,S,S,S\n\
X,X,S,S,S,S,S,S,S,S,S,S\n\
X,X,S,S,S,S,S,S,S,S,S,S\n\
";

/// The decisions for pairs: row `n` is a pair of cards of value `n`,
/// column `n` the dealer's up-card `n`.
pub const PAIR_TABLE: &'static str = "\
X,X,X,X,X,X,X,X,X,X,X,X\n\
X,X,X,X,X,X,X,X,X,X,X,X\n\
X,X,P,P,P,P,P,P,H,H,H,H\n\
X,X,P,P,P,P,P,P,H,H,H,H\n\
X,X,H,H,H,P,P,H,H,H,H,H\n\
X,X,D,D,D,D,D,D,D,D,H,H\n\
X,X,P,P,P,P,P,H,H,H,H,H\n\
X,X,P,P,P,P,P,P,H,H,H,H\n\
X,X,P,P,P,P,P,P,P,P,P,P\n\
X,X,P,P,P,P,P,S,P,P,S,S\n\
X,X,S,S,S,S,S,S,S,S,S,S\n\
X,X,P,P,P,P,P,P,P,P,P,P\n\
";

/// The three decision tables.
pub struct StrategyTable {
    pub hard: DecisionTable,
    pub soft: DecisionTable,
    pub pair: DecisionTable,
}

/// Which of the three texts is not a decision table, and why.
#[derive(Clone, Copy, Debug, PartialEq, Eq, Structural)]
pub struct StrategyError {
    pub table: HandType,
    pub cause: LoadError,
}

/// What building a strategy table from three texts must give: the three
/// tables when all texts are clean, else the first fault of the first text
/// that has one, in the order hard, soft, pair.
pub open spec fn is_built_from(
    built: Result<StrategyTable, StrategyError>,
    hard: Seq<char>,
    soft: Seq<char>,
    pair: Seq<char>,
) -> bool {
    match built {
        Ok(tables) => {
            &&& all_clean(csv_records(hard))
            &&& all_clean(csv_records(soft))
            &&& all_clean(csv_records(pair))
            &&& tables.wf()
            &&& is_table_of(tables.hard@, csv_records(hard))
            &&& is_table_of(tables.soft@, csv_records(soft))
            &&& is_table_of(tables.pair@, csv_records(pair))
        },
        Err(e) => match e.table {
            HandType::Hard => is_first_fault(csv_records(hard), e.cause),
            HandType::Soft => {
                &&& all_clean(csv_records(hard))
                &&& is_first_fault(csv_records(soft), e.cause)
            },
            HandType::Pair => {
                &&& all_clean(csv_records(hard))
                &&& all_clean(csv_records(soft))
                &&& is_first_fault(csv_records(pair), e.cause)
            },
        },
    }
}

impl StrategyTable {
    /// Each of the three tables holds decision codes only.
    pub open spec fn wf(&self) -> bool {
        &&& self.hard.wf()
        &&& self.soft.wf()
        &&& self.pair.wf()
    }

    /// The table that hands of the given class are looked up in.
    pub open spec fn table_for(&self, hand_type: HandType) -> DecisionTable {
        match hand_type {
            HandType::Hard => self.hard,
            HandType::Soft => self.soft,
            HandType::Pair => self.pair,
        }
    }

    /// The tables hold a decision for every well-formed hand.
    pub open spec fn is_complete(&self) -> bool {
        forall|hand: Hand| hand.wf() ==> #[trigger] self.decision_for(hand) is Some
    }

    /// The decision that the tables hold for `hand`, if they hold one.
    pub open spec fn decision_for(&self, hand: Hand) -> Option<char> {
        let cells = self.table_for(hand.hand_type)@;
        if cells.contains_key(hand.lookup_key()) {
            Some(cells[hand.lookup_key()])
        } else {
            None
        }
    }

    /// Reads the three tables from comma-separated texts, as
    /// [`load_strategy_table`] reads each.
    pub fn from_sources(hard: &str, soft: &str, pair: &str) -> (built: Result<
        StrategyTable,
        StrategyError,
    >)
        ensures
            is_built_from(built, hard@, soft@, pair@),
    {
        let hard_table = match load_strategy_table(hard) {
            Ok(table) => table,
            Err(cause) => {
                return Err(StrategyError { table: HandType::Hard, cause });
            },
        };
        let soft_table = match load_strategy_table(soft) {
            Ok(table) => table,
            Err(cause) => {
                return Err(StrategyError { table: HandType::Soft, cause });
            },
        };
        let pair_table = match load_strategy_table(pair) {
            Ok(table) => table,
            Err(cause) => {
                return Err(StrategyError { table: HandType::Pair, cause });
            },
        };
        Ok(StrategyTable { hard: hard_table, soft: soft_table, pair: pair_table })
    }

    /// Reads the three tables that come with the library.
    pub fn new() -> (built: Result<StrategyTable, StrategyError>)
        ensures
            is_built_from(built, HARD_TABLE@, SOFT_TABLE@, PAIR_TABLE@),
    {
        StrategyTable::from_sources(HARD_TABLE, SOFT_TABLE, PAIR_TABLE)
    }
}

impl Hand {
    /// The key under which the decision for this hand is stored: the
    /// dealer's up-card and, for a pair, the value of either card, for any
    /// other hand the sum of the two.
    pub open spec fn lookup_key(&self) -> (u8, u8) {
        (
            self.dealer_card,
            match self.hand_type {
                HandType::Pair => self.player_cards.0,
                _ => (self.player_cards.0 + self.player_cards.1) as u8,
            },
        )
    }

    /// The textbook decision for this hand, or `None` where the table of
    /// the hand's class has no cell for it.
    pub fn try_evaluate(&self, strategy_table: &StrategyTable) -> (decision: Option<char>)
        requires
            self.wf(),
        ensures
            decision == strategy_table.decision_for(*self),
            strategy_table.wf() && decision is Some ==> is_decision_code(decision->0),
    {
        let second: u8 = match self.hand_type {
            HandType::Pair => self.player_cards.0,
            _ => self.player_cards.0 + self.player_cards.1,
        };
        match self.hand_type {
            HandType::Hard => strategy_table.hard.get(self.dealer_card, second),
            HandType::Soft => strategy_table.soft.get(self.dealer_card, second),
            HandType::Pair => strategy_table.pair.get(self.dealer_card, second),
        }
    }

    /// The textbook decision for this hand. The table of the hand's class
    /// must have a cell for it.
    pub fn evaluate(&self, strategy_table: &StrategyTable) -> (decision: char)
        requires
            self.wf(),
            strategy_table.decision_for(*self) is Some,
        ensures
            Some(decision) == strategy_table.decision_for(*self),
            strategy_table.wf() ==> is_decision_code(decision),
    {
        self.try_evaluate(strategy_table).unwrap()
    }
}

/// Any three card values make a well-formed hand, and what the tables hold
/// for it is either nothing or a decision code: the cell of the table of
/// the hand's class under the hand's key.
pub proof fn lemma_every_hand_evaluates(first: u8, second: u8, dealer: u8, tables: StrategyTable)
    requires
        is_card_value(first),
        is_card_value(second),
        is_card_value(dealer),
        tables.wf(),
    ensures
        hand_of(first, second, dealer).wf(),
        match tables.decision_for(hand_of(first, second, dealer)) {
            Some(decision) => {
                &&& is_decision_code(decision)
                &&& tables.table_for(hand_type_of(first, second))@.contains_key(
                    hand_of(first, second, dealer).lookup_key(),
                )
                &&& tables.table_for(hand_type_of(first, second))@[hand_of(
                    first,
                    second,
                    dealer,
                ).lookup_key()] == decision
            },
            None => !tables.table_for(hand_type_of(first, second))@.contains_key(
                hand_of(first, second, dealer).lookup_key(),
            ),
        },
{
    let hand = hand_of(first, second, dealer);
    let cells = tables.table_for(hand.hand_type)@;
    if cells.contains_key(hand.lookup_key()) {
        assert(tables.table_for(hand.hand_type).wf());
    }
}

/// The key of a hand: the dealer's card as it is, with the card's value
/// for a pair and the sum of the two cards for any other hand.
pub proof fn lemma_lookup_key(first: u8, second: u8, dealer: u8)
    requires
        is_card_value(first),
        is_card_value(second),
        is_card_value(dealer),
    ensures
        first == second ==> hand_of(first, second, dealer).lookup_key() == (dealer, first),
        first != second ==> hand_of(first, second, dealer).lookup_key() == (
            dealer,
            (first + second) as u8,
        ),
        first != second ==> hand_of(first, second, dealer).lookup_key().1 == first + second,
{
}

/// The keys that hands reach. The dealer's card is 2 to 11; the second
/// value is 5 to 19 for a hard hand, 13 to 21 for a soft hand, and 2 to 11
/// for a pair.
pub open spec fn is_reachable_key(hand_type: HandType, key: (u8, u8)) -> bool {
    &&& 2 <= key.0 <= 11
    &&& match hand_type {
        HandType::Hard => 5 <= key.1 <= 19,
        HandType::Soft => 13 <= key.1 <= 21,
        HandType::Pair => 2 <= key.1 <= 11,
    }
}

/// The key of a well-formed hand is a reachable key of the hand's class.
pub proof fn lemma_hand_reaches_key(hand: Hand)
    requires
        hand.wf(),
    ensures
        is_reachable_key(hand.hand_type, hand.lookup_key()),
{
}

/// Every reachable key of a class is the key of some well-formed hand of
/// that class.
pub proof fn lemma_key_is_reached(hand_type: HandType, key: (u8, u8)) -> (hand: Hand)
    requires
        is_reachable_key(hand_type, key),
    ensures
        hand.wf(),
        hand.hand_type == hand_type,
        hand.lookup_key() == key,
{
    match hand_type {
        HandType::Hard => if key.1 <= 12 {
            hand_of(2, (key.1 - 2) as u8, key.0)
        } else {
            hand_of(10, (key.1 - 10) as u8, key.0)
        },
        HandType::Soft => hand_of(11, (key.1 - 11) as u8, key.0),
        HandType::Pair => hand_of(key.1, key.1, key.0),
    }
}

/// Tables are complete exactly when each holds a cell under every
/// reachable key of its class.
pub proof fn lemma_complete_tables(tables: StrategyTable)
    ensures
        tables.is_complete() <==> forall|hand_type: HandType, key: (u8, u8)|
            is_reachable_key(hand_type, key) ==> #[trigger] tables.table_for(
                hand_type,
            )@.contains_key(key),
{
    if tables.is_complete() {
        assert forall|hand_type: HandType, key: (u8, u8)|
            is_reachable_key(hand_type, key) implies #[trigger] tables.table_for(
            hand_type,
        )@.contains_key(key) by {
            let hand = lemma_key_is_reached(hand_type, key);
            assert(tables.decision_for(hand) is Some);
        }
    }
    if forall|hand_type: HandType, key: (u8, u8)|
        is_reachable_key(hand_type, key) ==> #[trigger] tables.table_for(hand_type)@.contains_key(
            key,
        ) {
        assert forall|hand: Hand| hand.wf() implies #[trigger] tables.decision_for(
            hand,
        ) is Some by {
            lemma_hand_reaches_key(hand);
            assert(tables.table_for(hand.hand_type)@.contains_key(hand.lookup_key()));
        }
    }
}

} // verus!
