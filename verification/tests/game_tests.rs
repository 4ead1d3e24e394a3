use set_game::card::{Card, Colour, Number, Shading, Shape};
use set_game::game::{Attribute, PossibleSet, PossibleSetCreationError};

fn base_card() -> Card {
    Card {
        colour: Colour::Red,
        shading: Shading::Filled,
        shape: Shape::Shape1,
        number: Number::One,
    }
}

#[test]
fn possible_set_try_from_fails_for_repeated_cards() {
    let card1 = base_card();
    let card2 = Card { colour: Colour::Blue, ..card1 };
    assert!(PossibleSet::from_three([card1, card1, card2]).is_err())
}

#[test]
fn possible_sets_equal_independent_of_creation_order() {
    let card1 = base_card();
    let card2 = Card { colour: Colour::Blue, ..card1 };
    let card3 = Card { colour: Colour::Green, ..card1 };
    assert_eq!(
        PossibleSet::from_three([card1, card2, card3]),
        PossibleSet::from_three([card3, card1, card2])
    )
}

#[test]
fn repeated_card_gives_not_distinct_error() {
    let card_a = base_card();
    let card_b = Card { number: Number::Two, ..card_a };
    let result = PossibleSet::from_three([card_a, card_a, card_b]);
    assert_eq!(result.unwrap_err(), PossibleSetCreationError::NotDistinct);
}

#[test]
fn number_varies_others_constant_is_a_set() {
    let card1 = base_card();
    let card2 = Card { number: Number::Two, ..card1 };
    let card3 = Card { number: Number::Three, ..card1 };
    let trio = PossibleSet::from_three([card1, card2, card3]).unwrap();
    assert_eq!(trio.count_distinct(Attribute::Colour), 1);
    assert_eq!(trio.count_distinct(Attribute::Shape), 1);
    assert_eq!(trio.count_distinct(Attribute::Shading), 1);
    assert_eq!(trio.count_distinct(Attribute::Number), 3);
    let valid = trio.try_to_set();
    assert!(valid.is_some());
    let cards = valid.unwrap().cards();
    assert_eq!(cards.len(), 3);
    assert!(cards.contains(&card1));
    assert!(cards.contains(&card2));
    assert!(cards.contains(&card3));
    assert_ne!(cards[0], cards[1]);
    assert_ne!(cards[0], cards[2]);
    assert_ne!(cards[1], cards[2]);
}

#[test]
fn two_same_one_different_colour_is_not_a_set() {
    let card1 = base_card();
    let card2 = Card { number: Number::Two, ..card1 };
    let card3 = Card { colour: Colour::Green, ..card1 };
    let trio = PossibleSet::from_three([card1, card2, card3]).unwrap();
    assert_eq!(trio.count_distinct(Attribute::Colour), 2);
    assert!(trio.try_to_set().is_none());
}

#[test]
fn all_attributes_varying_is_a_set() {
    let card1 = base_card();
    let card2 = Card {
        colour: Colour::Green,
        shading: Shading::Hatched,
        shape: Shape::Shape2,
        number: Number::Two,
    };
    let card3 = Card {
        colour: Colour::Blue,
        shading: Shading::Unshaded,
        shape: Shape::Shape3,
        number: Number::Three,
    };
    let trio = PossibleSet::from_three([card1, card2, card3]).unwrap();
    assert_eq!(trio.count_distinct(Attribute::Colour), 3);
    assert_eq!(trio.count_distinct(Attribute::Shape), 3);
    assert_eq!(trio.count_distinct(Attribute::Shading), 3);
    assert_eq!(trio.count_distinct(Attribute::Number), 3);
    assert!(trio.try_to_set().is_some());
}

#[test]
fn validation_outcome_is_order_independent() {
    let card1 = base_card();
    let card2 = Card { number: Number::Two, ..card1 };
    let card3 = Card { number: Number::Three, ..card1 };
    let one_way = PossibleSet::from_three([card1, card2, card3]).unwrap();
    let other_way = PossibleSet::from_three([card3, card1, card2]).unwrap();
    assert_eq!(one_way.try_to_set(), other_way.try_to_set());
    assert!(one_way.try_to_set().is_some());
}
