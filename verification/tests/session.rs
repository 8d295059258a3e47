use blackjack_trainer::answer::Verdict;
use blackjack_trainer::cards::Hand;
use blackjack_trainer::render::rank_glyph;
use blackjack_trainer::session::{deal_round, round_for, streak_line, Session};
use blackjack_trainer::strategy::StrategyTable;
use blackjack_trainer::table::DecisionTable;

#[test]
fn three_wins_then_a_loss() {
    let mut session = Session::new();
    assert_eq!(session.streak(), 0);
    session.record(true);
    session.record(true);
    session.record(true);
    assert_eq!(session.streak(), 3);
    session.record(false);
    assert_eq!(session.streak(), 0);
}

#[test]
fn loss_at_zero_stays_zero() {
    let mut session = Session::new();
    session.record(false);
    assert_eq!(session.streak(), 0);
}

#[test]
fn streak_line_format() {
    assert_eq!(streak_line(0), "Streak: [0]");
    assert_eq!(streak_line(7), "Streak: [7]");
    assert_eq!(streak_line(10), "Streak: [10]");
    assert_eq!(streak_line(1203), "Streak: [1203]");
    assert_eq!(streak_line(u64::MAX), "Streak: [18446744073709551615]");
}

#[test]
fn answers_drive_the_streak() {
    let mut session = Session::new();
    let (verdict, lines) = session.answer('S', "s\n");
    assert_eq!(verdict, Verdict::Correct);
    assert_eq!(lines, vec!["Correct!", "Streak: [1]"]);
    let (verdict, lines) = session.answer('H', "H\n");
    assert_eq!(verdict, Verdict::Correct);
    assert_eq!(lines, vec!["Correct!", "Streak: [2]"]);
    let (verdict, lines) = session.answer('D', "h\n");
    assert_eq!(verdict, Verdict::Incorrect);
    assert_eq!(lines, vec!["Incorrect!", "Correct decision is: D", "Streak: [0]"]);
    let (verdict, lines) = session.answer('P', "p");
    assert_eq!(verdict, Verdict::Correct);
    assert_eq!(lines, vec!["Correct!", "Streak: [1]"]);
    let (verdict, lines) = session.answer('P', "\n");
    assert_eq!(verdict, Verdict::NoAnswer);
    assert_eq!(lines, vec!["Streak: [0]"]);
    assert_eq!(session.streak(), 0);
}

#[test]
fn round_holds_hand_decision_and_pictures() {
    let mut hard = DecisionTable::new();
    hard.insert(6, 16, 'S');
    let tables = StrategyTable { hard, soft: DecisionTable::new(), pair: DecisionTable::new() };
    let hand = Hand::from_cards(9, 7, 6);
    let round = round_for(hand, &tables).unwrap();
    assert_eq!(round.hand, hand);
    assert_eq!(round.correct_decision, 'S');
    assert_eq!(round.dealer_picture.len(), 7);
    assert_eq!(round.player_picture.len(), 7);
    assert_eq!(round.dealer_picture[1].chars().nth(1), Some('6'));
    assert_eq!(round.player_picture[1].chars().nth(1), Some('9'));
    assert_eq!(round.player_picture[1].chars().nth(7), Some('7'));
    assert_eq!(round.player_picture[5].chars().nth(13), Some('7'));
}

#[test]
fn no_round_without_a_decision() {
    let tables = StrategyTable {
        hard: DecisionTable::new(),
        soft: DecisionTable::new(),
        pair: DecisionTable::new(),
    };
    assert!(round_for(Hand::from_cards(9, 7, 6), &tables).is_none());
    assert!(deal_round(&tables).is_none());
}

#[test]
fn dealt_rounds_match_the_shipped_tables() {
    let tables = StrategyTable::new().unwrap();
    for _ in 0..500 {
        let round = deal_round(&tables).unwrap();
        assert_eq!(round.correct_decision, round.hand.evaluate(&tables));
        let dealer_rank = round.dealer_picture[1].chars().nth(1).unwrap();
        let dealer = round.hand.dealer_card;
        assert!((0..3).any(|pick| rank_glyph(dealer, pick) == dealer_rank));
    }
}
