use std::collections::HashSet;

use set_game::card::{Card, Colour, Number, Shading, Shape};

#[test]
fn all_gives_distinct_cards() {
    let all_cards = Card::all();
    let set_of_cards: HashSet<Card> = HashSet::from_iter(all_cards.into_iter());
    assert_eq!(set_of_cards.len(), 81);
}

#[test]
fn all_contains_every_combination() {
    let all_cards = Card::all();
    assert_eq!(all_cards.len(), 81);
    for colour in Colour::all() {
        for shape in Shape::all() {
            for shading in Shading::all() {
                for number in Number::all() {
                    let card = Card { colour, shape, shading, number };
                    assert!(all_cards.contains(&card));
                }
            }
        }
    }
}

#[test]
fn domains_have_three_members_with_fixed_ends() {
    let colours = Colour::all();
    assert_eq!(colours, vec![Colour::Red, Colour::Green, Colour::Blue]);
    assert_eq!(Colour::first(), Colour::Red);
    assert_eq!(Colour::last(), Colour::Blue);

    let shapes = Shape::all();
    assert_eq!(shapes, vec![Shape::Shape1, Shape::Shape2, Shape::Shape3]);
    assert_eq!(Shape::first(), Shape::Shape1);
    assert_eq!(Shape::last(), Shape::Shape3);

    let shadings = Shading::all();
    assert_eq!(shadings, vec![Shading::Filled, Shading::Hatched, Shading::Unshaded]);
    assert_eq!(Shading::first(), Shading::Filled);
    assert_eq!(Shading::last(), Shading::Unshaded);

    let numbers = Number::all();
    assert_eq!(numbers, vec![Number::One, Number::Two, Number::Three]);
    assert_eq!(Number::first(), Number::One);
    assert_eq!(Number::last(), Number::Three);
}

#[test]
fn accessors_return_the_card_fields() {
    let card = Card {
        colour: Colour::Green,
        shape: Shape::Shape2,
        shading: Shading::Hatched,
        number: Number::Three,
    };
    assert_eq!(*card.colour(), Colour::Green);
    assert_eq!(*card.shape(), Shape::Shape2);
    assert_eq!(*card.shading(), Shading::Hatched);
    assert_eq!(*card.number(), Number::Three);
}
