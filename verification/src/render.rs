//! Drawing cards as text.
//!
//! A picture is seven lines of box-drawing characters. What a card shows is
//! its rank glyph and a suit glyph; the suit, and which face stands for a
//! card of value ten, are decoration and are drawn at random.

use vstd::prelude::*;

use crate::cards::{is_card_value, ACE, TEN};
use crate::random::draw_between;
use crate::text::{line_with_glyph, line_with_glyphs};

verus! {

/// The number of suits.
pub const SUITS: u8 = 4;

/// The number of faces that stand for a card of value ten.
pub const FACES: u8 = 3;

/// The suit glyph with the given number: spades, clubs, hearts, diamonds.
pub open spec fn suit_glyph_of(pick: u8) -> char {
    if pick == 0 {
        '♠'
    } else if pick == 1 {
        '♣'
    } else if pick == 2 {
        '♥'
    } else {
        '♢'
    }
}

/// The face with the given number: king, queen, jack.
pub open spec fn face_glyph_of(pick: u8) -> char {
    if pick == 0 {
        'K'
    } else if pick == 1 {
        'Q'
    } else {
        'J'
    }
}

/// The glyph for a card value: `A` for an ace, the face numbered `pick` for
/// a ten, and the digit of the value for 2 to 9.
pub open spec fn rank_glyph_of(value: u8, pick: u8) -> char {
    if value == ACE {
        'A'
    } else if value == TEN {
        face_glyph_of(pick)
    } else {
        (value + 48) as char
    }
}

/// The suit glyph with the given number.
pub fn suit_glyph(pick: u8) -> (glyph: char)
    requires
        pick < SUITS,
    ensures
        glyph == suit_glyph_of(pick),
{
    if pick == 0 {
        '♠'
    } else if pick == 1 {
        '♣'
    } else if pick == 2 {
        '♥'
    } else {
        '♢'
    }
}

/// The glyph for a card value. `pick` chooses the face of a ten and has no
/// part in any other glyph.
pub fn rank_glyph(value: u8, pick: u8) -> (glyph: char)
    requires
        is_card_value(value),
        pick < FACES,
    ensures
        glyph == rank_glyph_of(value, pick),
        value == ACE ==> glyph == 'A',
        value == TEN ==> glyph == 'K' || glyph == 'Q' || glyph == 'J',
        value < TEN ==> glyph as int == '0' as int + value,
        value != TEN ==> glyph == rank_glyph_of(value, 0),
{
    if value == ACE {
        'A'
    } else if value == TEN {
        if pick == 0 {
            'K'
        } else if pick == 1 {
            'Q'
        } else {
            'J'
        }
    } else {
        (value + 48) as char
    }
}

/// The picture of the dealer's hand: the up-card with its rank in the top
/// left corner and its suit in the middle, and a second card face down.
pub open spec fn dealer_picture(rank: char, suit: char) -> Seq<Seq<char>> {
    seq![
        "┌─────┌────────┐ "@,
        "│"@.push(rank) + "    │        │ "@,
        "│     │        │ "@,
        "│   "@.push(suit) + " │        │ "@,
        "│     │        │ "@,
        "│     │        │ "@,
        "└─────└────────┘ "@,
    ]
}

/// The picture of the player's hand: two cards side by side, each with its
/// rank at the top and its suit in the middle; the second card shows its
/// rank once more in the bottom right corner.
pub open spec fn player_picture(rank0: char, rank1: char, suit0: char, suit1: char) -> Seq<
    Seq<char>,
> {
    seq![
        "┌─────┌────────┐ "@,
        ("│"@.push(rank0) + "    │"@).push(rank1) + "       │ "@,
        "│     │        │ "@,
        ("│   "@.push(suit0) + " │   "@).push(suit1) + "    │ "@,
        "│     │        │ "@,
        "│     │      "@.push(rank1) + " │ "@,
        "└─────└────────┘ "@,
    ]
}

/// Draws the dealer's hand with the given glyphs on the up-card.
pub fn dealer_lines(rank: char, suit: char) -> (lines: Vec<String>)
    ensures
        lines.deep_view() == dealer_picture(rank, suit),
{
    let mut lines: Vec<String> = Vec::new();
    lines.push(String::from_str("┌─────┌────────┐ "));
    lines.push(line_with_glyph("│", rank, "    │        │ "));
    lines.push(String::from_str("│     │        │ "));
    lines.push(line_with_glyph("│   ", suit, " │        │ "));
    lines.push(String::from_str("│     │        │ "));
    lines.push(String::from_str("│     │        │ "));
    lines.push(String::from_str("└─────└────────┘ "));
    assert(lines.deep_view() =~= dealer_picture(rank, suit));
    lines
}

/// Draws the player's hand with the given glyphs on its two cards.
pub fn player_lines(rank0: char, rank1: char, suit0: char, suit1: char) -> (lines: Vec<String>)
    ensures
        lines.deep_view() == player_picture(rank0, rank1, suit0, suit1),
{
    let mut lines: Vec<String> = Vec::new();
    lines.push(String::from_str("┌─────┌────────┐ "));
    lines.push(line_with_glyphs("│", rank0, "    │", rank1, "       │ "));
    lines.push(String::from_str("│     │        │ "));
    lines.push(line_with_glyphs("│   ", suit0, " │   ", suit1, "    │ "));
    lines.push(String::from_str("│     │        │ "));
    lines.push(line_with_glyph("│     │      ", rank1, " │ "));
    lines.push(String::from_str("└─────└────────┘ "));
    assert(lines.deep_view() =~= player_picture(rank0, rank1, suit0, suit1));
    lines
}

/// The rank glyph of a card, with a face drawn at random where the card is
/// a ten. No draw is made for any other card.
fn draw_rank_glyph(value: u8) -> (glyph: char)
    requires
        is_card_value(value),
    ensures
        exists|pick: u8| pick < FACES && glyph == rank_glyph_of(value, pick),
        value != TEN ==> glyph == rank_glyph_of(value, 0),
{
    if value == TEN {
        let pick = draw_between(0, FACES - 1);
        rank_glyph(value, pick)
    } else {
        rank_glyph(value, 0)
    }
}

/// `picture` shows the dealer's hand around a card of the given value, with
/// the face and the suit of these numbers.
pub open spec fn shows_dealer_hand(picture: Seq<Seq<char>>, value: u8, face: u8, suit: u8) -> bool {
    &&& face < FACES
    &&& suit < SUITS
    &&& picture == dealer_picture(rank_glyph_of(value, face), suit_glyph_of(suit))
}

/// `picture` shows the player's two cards, with the faces and the suits of
/// these numbers.
pub open spec fn shows_player_hand(
    picture: Seq<Seq<char>>,
    cards: (u8, u8),
    faces: (u8, u8),
    suits: (u8, u8),
) -> bool {
    &&& faces.0 < FACES
    &&& faces.1 < FACES
    &&& suits.0 < SUITS
    &&& suits.1 < SUITS
    &&& picture == player_picture(
        rank_glyph_of(cards.0, faces.0),
        rank_glyph_of(cards.1, faces.1),
        suit_glyph_of(suits.0),
        suit_glyph_of(suits.1),
    )
}

/// Draws the dealer's hand around the up-card. The suit is drawn at
/// random, and so is the face where the card is a ten; the rank glyph of
/// any other card is fixed by its value.
pub fn draw_dealer_hand(card_number: &u8) -> (lines: Vec<String>)
    requires
        is_card_value(*card_number),
    ensures
        exists|face: u8, suit: u8| #[trigger]
            shows_dealer_hand(lines.deep_view(), *card_number, face, suit),
        *card_number != TEN ==> exists|suit: u8| #[trigger]
            shows_dealer_hand(lines.deep_view(), *card_number, 0, suit),
{
    let suit = draw_between(0, SUITS - 1);
    let rank = draw_rank_glyph(*card_number);
    let lines = dealer_lines(rank, suit_glyph(suit));
    proof {
        let face = choose|pick: u8| pick < FACES && rank == rank_glyph_of(*card_number, pick);
        assert(shows_dealer_hand(lines.deep_view(), *card_number, face, suit));
        if *card_number != TEN {
            assert(shows_dealer_hand(lines.deep_view(), *card_number, 0, suit));
        }
    }
    lines
}

/// Draws the player's two cards. Each card gets a suit of its own at
/// random, and a ten a face of its own; the rank glyph of any other card is
/// fixed by its value.
pub fn draw_player_hand(cards: &(u8, u8)) -> (lines: Vec<String>)
    requires
        is_card_value(cards.0),
        is_card_value(cards.1),
    ensures
        exists|faces: (u8, u8), suits: (u8, u8)| #[trigger]
            shows_player_hand(lines.deep_view(), *cards, faces, suits),
        cards.0 != TEN && cards.1 != TEN ==> exists|suits: (u8, u8)| #[trigger]
            shows_player_hand(lines.deep_view(), *cards, (0, 0), suits),
{
    let suit0 = draw_between(0, SUITS - 1);
    let suit1 = draw_between(0, SUITS - 1);
    let rank0 = draw_rank_glyph(cards.0);
    let rank1 = draw_rank_glyph(cards.1);
    let lines = player_lines(rank0, rank1, suit_glyph(suit0), suit_glyph(suit1));
    proof {
        let face0 = choose|pick: u8| pick < FACES && rank0 == rank_glyph_of(cards.0, pick);
        let face1 = choose|pick: u8| pick < FACES && rank1 == rank_glyph_of(cards.1, pick);
        assert(shows_player_hand(lines.deep_view(), *cards, (face0, face1), (suit0, suit1)));
        if cards.0 != TEN && cards.1 != TEN {
            assert(shows_player_hand(lines.deep_view(), *cards, (0, 0), (suit0, suit1)));
        }
    }
    lines
}

/// Only a ten varies: the glyph of any other card value is the same
/// whichever face is picked, `A` for an ace and the digit of the value
/// below ten.
pub proof fn lemma_only_tens_vary(value: u8, pick1: u8, pick2: u8)
    requires
        is_card_value(value),
        value != TEN,
    ensures
        rank_glyph_of(value, pick1) == rank_glyph_of(value, pick2),
        value == ACE ==> rank_glyph_of(value, pick1) == 'A',
        value < TEN ==> rank_glyph_of(value, pick1) as int == '0' as int + value,
{
}

} // verus!
