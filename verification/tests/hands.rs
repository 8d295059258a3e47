use blackjack_trainer::cards::{classify, Hand, HandType};
use blackjack_trainer::strategy::StrategyTable;
use blackjack_trainer::table::DecisionTable;

fn empty_tables() -> StrategyTable {
    StrategyTable {
        hard: DecisionTable::new(),
        soft: DecisionTable::new(),
        pair: DecisionTable::new(),
    }
}

#[test]
fn two_aces_are_a_pair() {
    assert_eq!(classify(11, 11), HandType::Pair);
    assert_eq!(Hand::from_cards(11, 11, 2).hand_type, HandType::Pair);
}

#[test]
fn ace_and_six_is_soft() {
    assert_eq!(classify(11, 6), HandType::Soft);
    assert_eq!(classify(6, 11), HandType::Soft);
}

#[test]
fn nine_and_four_is_hard() {
    assert_eq!(classify(9, 4), HandType::Hard);
}

#[test]
fn two_sevens_are_a_pair() {
    assert_eq!(classify(7, 7), HandType::Pair);
}

#[test]
fn from_cards_keeps_the_cards() {
    let hand = Hand::from_cards(9, 7, 6);
    assert_eq!(hand.player_cards, (9, 7));
    assert_eq!(hand.dealer_card, 6);
    assert_eq!(hand.hand_type, HandType::Hard);
    assert_eq!(hand.value(), 16);
}

#[test]
fn dealt_hands_are_well_formed() {
    for _ in 0..2000 {
        let hand = Hand::new();
        assert!((2..=11).contains(&hand.player_cards.0));
        assert!((2..=11).contains(&hand.player_cards.1));
        assert!((2..=11).contains(&hand.dealer_card));
        assert_eq!(hand.hand_type, classify(hand.player_cards.0, hand.player_cards.1));
    }
}

#[test]
fn dealing_varies() {
    let first = Hand::new();
    let mut differs = false;
    for _ in 0..200 {
        if Hand::new() != first {
            differs = true;
        }
    }
    assert!(differs);
}

#[test]
fn hard_sixteen_against_six_stands() {
    let mut tables = empty_tables();
    tables.hard.insert(6, 16, 'S');
    let hand = Hand::from_cards(9, 7, 6);
    assert_eq!(hand.try_evaluate(&tables), Some('S'));
    assert_eq!(hand.evaluate(&tables), 'S');
}

#[test]
fn eights_against_five_split() {
    let mut tables = empty_tables();
    tables.pair.insert(5, 8, 'P');
    let hand = Hand::from_cards(8, 8, 5);
    assert_eq!(hand.try_evaluate(&tables), Some('P'));
    assert_eq!(hand.evaluate(&tables), 'P');
}

#[test]
fn pair_is_looked_up_by_rank_not_sum() {
    let mut tables = empty_tables();
    tables.pair.insert(5, 16, 'H');
    tables.hard.insert(5, 16, 'S');
    tables.hard.insert(5, 8, 'D');
    let hand = Hand::from_cards(8, 8, 5);
    assert_eq!(hand.try_evaluate(&tables), None);
}

#[test]
fn soft_hand_uses_the_soft_table() {
    let mut tables = empty_tables();
    tables.hard.insert(3, 17, 'S');
    tables.soft.insert(3, 17, 'D');
    tables.pair.insert(3, 17, 'P');
    assert_eq!(Hand::from_cards(11, 6, 3).evaluate(&tables), 'D');
    assert_eq!(Hand::from_cards(6, 11, 3).evaluate(&tables), 'D');
    assert_eq!(Hand::from_cards(10, 7, 3).evaluate(&tables), 'S');
}

#[test]
fn missing_entry_is_not_defaulted() {
    let mut tables = empty_tables();
    tables.hard.insert(6, 15, 'S');
    tables.hard.insert(7, 16, 'H');
    tables.soft.insert(6, 16, 'H');
    tables.pair.insert(6, 16, 'P');
    assert_eq!(Hand::from_cards(9, 7, 6).try_evaluate(&tables), None);
}

#[test]
fn dealer_card_is_used_without_offset() {
    let hard = "H,S,D\nH,S,D\nH,S,D\nH,S,D\nH,S,D\nH,S,D\n";
    let tables = StrategyTable::from_sources(hard, "", "").unwrap();
    assert_eq!(Hand::from_cards(2, 3, 2).try_evaluate(&tables), Some('D'));
    assert_eq!(Hand::from_cards(2, 3, 3).try_evaluate(&tables), None);
}

#[test]
fn every_hand_evaluates_to_a_code_with_the_shipped_tables() {
    let tables = StrategyTable::new().unwrap();
    for first in 2..=11u8 {
        for second in 2..=11u8 {
            for dealer in 2..=11u8 {
                let hand = Hand::from_cards(first, second, dealer);
                let decision = hand.try_evaluate(&tables).unwrap();
                assert!(matches!(decision, 'H' | 'S' | 'D' | 'P' | 'R'));
                assert_eq!(hand.evaluate(&tables), decision);
            }
        }
    }
}

#[test]
fn every_hand_gives_a_code_or_nothing() {
    let tables = StrategyTable::from_sources("H,S\n", "X,X,X,X,X,X,X,X,X,X,X,X\n", "").unwrap();
    for first in 2..=11u8 {
        for second in 2..=11u8 {
            for dealer in 2..=11u8 {
                match Hand::from_cards(first, second, dealer).try_evaluate(&tables) {
                    Some(decision) => {
                        assert!(matches!(decision, 'X' | 'H' | 'S' | 'D' | 'P' | 'R'))
                    }
                    None => {}
                }
            }
        }
    }
}
