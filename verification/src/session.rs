//! One round of training and the streak that outlives it.
//!
//! The library decides; the caller prints and reads. A round starts with
//! [`deal_round`], which gives the pictures to show; the line that the
//! player then types goes to [`Session::answer`], which gives the lines to
//! print in return and keeps the streak.

use vstd::prelude::*;

use crate::answer::{judge, report_lines, report_of, verdict_of, Verdict};
use crate::cards::Hand;
use crate::decision::is_decision_code;
use crate::render::{draw_dealer_hand, draw_player_hand, shows_dealer_hand, shows_player_hand};
use crate::strategy::StrategyTable;
use crate::text::{decimal, push_decimal};

verus! {

/// The streak after one more round.
pub open spec fn next_streak(streak: nat, win: bool) -> nat {
    if win {
        streak + 1
    } else {
        0
    }
}

/// The streak after a run of rounds, oldest first.
pub open spec fn streak_after(streak: nat, wins: Seq<bool>) -> nat
    decreases wins.len(),
{
    if wins.len() == 0 {
        streak
    } else {
        next_streak(streak_after(streak, wins.drop_last()), wins.last())
    }
}

/// The line that shows a streak.
pub open spec fn streak_text(streak: nat) -> Seq<char> {
    "Streak: ["@ + decimal(streak) + "]"@
}

/// The line that shows a streak.
pub fn streak_line(streak: u64) -> (line: String)
    ensures
        line@ == streak_text(streak as nat),
{
    let mut line = String::from_str("Streak: [");
    push_decimal(&mut line, streak);
    line.append("]");
    line
}

/// A hand on the table: the cards, the decision that the strategy table
/// holds for them, and the pictures of the dealer's and the player's cards.
pub struct Round {
    pub hand: Hand,
    pub correct_decision: char,
    pub dealer_picture: Vec<String>,
    pub player_picture: Vec<String>,
}

impl Round {
    /// The round is the one to play with `hand` against `strategy_table`:
    /// it holds that hand and the table's decision for it, and its
    /// pictures show the hand's cards.
    pub open spec fn plays(&self, hand: Hand, strategy_table: &StrategyTable) -> bool {
        &&& self.hand == hand
        &&& strategy_table.decision_for(hand) == Some(self.correct_decision)
        &&& exists|face: u8, suit: u8| #[trigger]
            shows_dealer_hand(self.dealer_picture.deep_view(), hand.dealer_card, face, suit)
        &&& exists|faces: (u8, u8), suits: (u8, u8)| #[trigger]
            shows_player_hand(self.player_picture.deep_view(), hand.player_cards, faces, suits)
    }
}

/// Sets up the round for a hand that was dealt: looks the decision up and
/// draws the cards. There is no round where the strategy table holds no
/// decision for the hand, and nothing is drawn then.
pub fn round_for(hand: Hand, strategy_table: &StrategyTable) -> (round: Option<Round>)
    requires
        hand.wf(),
    ensures
        round is Some <==> strategy_table.decision_for(hand) is Some,
        round is Some ==> round->0.plays(hand, strategy_table),
        round is Some && strategy_table.wf() ==> is_decision_code(round->0.correct_decision),
{
    match hand.try_evaluate(strategy_table) {
        None => None,
        Some(correct_decision) => {
            let dealer_picture = draw_dealer_hand(&hand.dealer_card);
            let player_picture = draw_player_hand(&hand.player_cards);
            let round = Round { hand, correct_decision, dealer_picture, player_picture };
            proof {
                let (face, suit) = choose|face: u8, suit: u8| #[trigger]
                    shows_dealer_hand(dealer_picture.deep_view(), hand.dealer_card, face, suit);
                assert(shows_dealer_hand(
                    round.dealer_picture.deep_view(),
                    hand.dealer_card,
                    face,
                    suit,
                ));
                let (faces, suits) = choose|faces: (u8, u8), suits: (u8, u8)| #[trigger]
                    shows_player_hand(player_picture.deep_view(), hand.player_cards, faces, suits);
                assert(shows_player_hand(
                    round.player_picture.deep_view(),
                    hand.player_cards,
                    faces,
                    suits,
                ));
            }
            Some(round)
        },
    }
}

/// Deals a hand and sets up its round. Whatever hand is dealt, there is a
/// round if the strategy table holds a decision for every hand.
pub fn deal_round(strategy_table: &StrategyTable) -> (round: Option<Round>)
    ensures
        match round {
            Some(round) => round.hand.wf() && round.plays(round.hand, strategy_table),
            None => exists|hand: Hand|
                hand.wf() && #[trigger] strategy_table.decision_for(hand) is None,
        },
        strategy_table.is_complete() ==> round is Some,
        round is Some && strategy_table.wf() ==> is_decision_code(round->0.correct_decision),
{
    let hand = Hand::new();
    round_for(hand, strategy_table)
}

/// The state that lasts from round to round: the number of correct
/// answers in a row.
pub struct Session {
    streak: u64,
}

impl View for Session {
    type V = nat;

    closed spec fn view(&self) -> nat {
        self.streak as nat
    }
}

impl Session {
    /// A session without a correct answer yet.
    pub fn new() -> (session: Session)
        ensures
            session@ == 0,
    {
        Session { streak: 0 }
    }

    /// The number of correct answers in a row.
    pub fn streak(&self) -> (streak: u64)
        ensures
            streak == self@,
    {
        self.streak
    }

    /// Counts one round: a win lengthens the streak by one, anything else
    /// ends it.
    pub fn record(&mut self, win: bool)
        requires
            win ==> old(self)@ < u64::MAX,
        ensures
            final(self)@ == next_streak(old(self)@, win),
    {
        if win {
            self.streak = self.streak + 1;
        } else {
            self.streak = 0;
        }
    }

    /// Takes the line that the player typed in a round whose correct
    /// decision is `correct_decision`: judges it, counts the round, and
    /// gives the lines to print, which are the report on the verdict
    /// followed by the streak.
    pub fn answer(&mut self, correct_decision: char, line: &str) -> (said: (Verdict, Vec<String>))
        requires
            verdict_of(line@, correct_decision) == Verdict::Correct ==> old(self)@ < u64::MAX,
        ensures
            said.0 == verdict_of(line@, correct_decision),
            final(self)@ == next_streak(old(self)@, said.0 == Verdict::Correct),
            said.1.deep_view() == report_of(said.0, correct_decision).push(
                streak_text(final(self)@),
            ),
    {
        let verdict = judge(line, correct_decision);
        let mut lines = report_lines(verdict, correct_decision);
        self.record(verdict == Verdict::Correct);
        lines.push(streak_line(self.streak));
        assert(lines.deep_view() =~= report_of(verdict, correct_decision).push(
            streak_text(self@),
        ));
        (verdict, lines)
    }
}

/// A run of wins lengthens the streak by its length.
pub proof fn lemma_wins_add_up(streak: nat, wins: Seq<bool>)
    requires
        forall|k: int| 0 <= k < wins.len() ==> #[trigger] wins[k],
    ensures
        streak_after(streak, wins) == streak + wins.len(),
    decreases wins.len(),
{
    if wins.len() > 0 {
        lemma_wins_add_up(streak, wins.drop_last());
    }
}

/// A loss ends the streak, whatever it was and whatever came before.
pub proof fn lemma_loss_resets(streak: nat, wins: Seq<bool>)
    requires
        wins.len() > 0,
        !wins.last(),
    ensures
        streak_after(streak, wins) == 0,
{
}

} // verus!
