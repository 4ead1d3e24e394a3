//! The card model: four attribute domains of three values each, and the
//! card itself as one value from each domain.

use vstd::prelude::*;

verus! {

/// The colour attribute domain.
#[derive(Debug, PartialEq, Eq, Hash, Copy, Clone, Structural)]
pub enum Colour {
    Red,
    Green,
    Blue,
}

/// The shape attribute domain.
#[derive(Debug, PartialEq, Eq, Hash, Copy, Clone, Structural)]
pub enum Shape {
    Shape1,
    Shape2,
    Shape3,
}

/// The shading attribute domain.
#[derive(Debug, PartialEq, Eq, Hash, Copy, Clone, Structural)]
pub enum Shading {
    Filled,
    Hatched,
    Unshaded,
}

/// The number attribute domain.
#[derive(Debug, PartialEq, Eq, Hash, Copy, Clone, Structural)]
pub enum Number {
    One,
    Two,
    Three,
}

impl Colour {
    /// All members of the domain, in the fixed enumeration order.
    pub fn all() -> (r: Vec<Colour>)
        ensures
            r@ == seq![Colour::Red, Colour::Green, Colour::Blue],
    {
        let mut v: Vec<Colour> = Vec::with_capacity(3);
        v.push(Colour::Red);
        v.push(Colour::Green);
        v.push(Colour::Blue);
        proof {
            assert(v@ =~= seq![Colour::Red, Colour::Green, Colour::Blue]);
        }
        v
    }

    /// The first member in enumeration order.
    pub fn first() -> (r: Colour)
        ensures
            r == Colour::Red,
    {
        Colour::Red
    }

    /// The last member in enumeration order.
    pub fn last() -> (r: Colour)
        ensures
            r == Colour::Blue,
    {
        Colour::Blue
    }
}

impl Shape {
    /// All members of the domain, in the fixed enumeration order.
    pub fn all() -> (r: Vec<Shape>)
        ensures
            r@ == seq![Shape::Shape1, Shape::Shape2, Shape::Shape3],
    {
        let mut v: Vec<Shape> = Vec::with_capacity(3);
        v.push(Shape::Shape1);
        v.push(Shape::Shape2);
        v.push(Shape::Shape3);
        proof {
            assert(v@ =~= seq![Shape::Shape1, Shape::Shape2, Shape::Shape3]);
        }
        v
    }

    /// The first member in enumeration order.
    pub fn first() -> (r: Shape)
        ensures
            r == Shape::Shape1,
    {
        Shape::Shape1
    }

    /// The last member in enumeration order.
    pub fn last() -> (r: Shape)
        ensures
            r == Shape::Shape3,
    {
        Shape::Shape3
    }
}

impl Shading {
    /// All members of the domain, in the fixed enumeration order.
    pub fn all() -> (r: Vec<Shading>)
        ensures
            r@ == seq![Shading::Filled, Shading::Hatched, Shading::Unshaded],
    {
        let mut v: Vec<Shading> = Vec::with_capacity(3);
        v.push(Shading::Filled);
        v.push(Shading::Hatched);
        v.push(Shading::Unshaded);
        proof {
            assert(v@ =~= seq![Shading::Filled, Shading::Hatched, Shading::Unshaded]);
        }
        v
    }

    /// The first member in enumeration order.
    pub fn first() -> (r: Shading)
        ensures
            r == Shading::Filled,
    {
        Shading::Filled
    }

    /// The last member in enumeration order.
    pub fn last() -> (r: Shading)
        ensures
            r == Shading::Unshaded,
    {
        Shading::Unshaded
    }
}

impl Number {
    /// All members of the domain, in the fixed enumeration order.
    pub fn all() -> (r: Vec<Number>)
        ensures
            r@ == seq![Number::One, Number::Two, Number::Three],
    {
        let mut v: Vec<Number> = Vec::with_capacity(3);
        v.push(Number::One);
        v.push(Number::Two);
        v.push(Number::Three);
        proof {
            assert(v@ =~= seq![Number::One, Number::Two, Number::Three]);
        }
        v
    }

    /// The first member in enumeration order.
    pub fn first() -> (r: Number)
        ensures
            r == Number::One,
    {
        Number::One
    }

    /// The last member in enumeration order.
    pub fn last() -> (r: Number)
        ensures
            r == Number::Three,
    {
        Number::Three
    }
}

/// Position of a colour in the domain's fixed enumeration order.
pub open spec fn colour_index(c: Colour) -> int {
    match c {
        Colour::Red => 0,
        Colour::Green => 1,
        Colour::Blue => 2,
    }
}

/// Position of a shape in the domain's fixed enumeration order.
pub open spec fn shape_index(s: Shape) -> int {
    match s {
        Shape::Shape1 => 0,
        Shape::Shape2 => 1,
        Shape::Shape3 => 2,
    }
}

/// Position of a shading in the domain's fixed enumeration order.
pub open spec fn shading_index(s: Shading) -> int {
    match s {
        Shading::Filled => 0,
        Shading::Hatched => 1,
        Shading::Unshaded => 2,
    }
}

/// Position of a number in the domain's fixed enumeration order.
pub open spec fn number_index(n: Number) -> int {
    match n {
        Number::One => 0,
        Number::Two => 1,
        Number::Three => 2,
    }
}

/// An immutable card: one value from each of the four attribute domains.
/// Two cards are equal exactly when all four attributes match.
#[derive(Debug, PartialEq, Eq, Hash, Copy, Clone, Structural)]
pub struct Card {
    pub colour: Colour,
    pub shape: Shape,
    pub shading: Shading,
    pub number: Number,
}

/// Position of a card in the deck enumeration order: colour varies slowest,
/// then shading, then shape, then number.
pub open spec fn card_index(c: Card) -> int {
    27 * colour_index(c.colour) + 9 * shading_index(c.shading) + 3 * shape_index(c.shape)
        + number_index(c.number)
}

/// Every card's deck position lies below the deck size of 81.
pub proof fn lemma_card_index_bounds(c: Card)
    ensures
        0 <= card_index(c) < 81,
{
    assert(0 <= colour_index(c.colour) < 3);
    assert(0 <= shading_index(c.shading) < 3);
    assert(0 <= shape_index(c.shape) < 3);
    assert(0 <= number_index(c.number) < 3);
}

/// Distinct cards sit at distinct deck positions.
pub proof fn lemma_card_index_injective(a: Card, b: Card)
    ensures
        card_index(a) == card_index(b) ==> a == b,
{
    if card_index(a) == card_index(b) {
        assert(0 <= colour_index(a.colour) < 3);
        assert(0 <= shading_index(a.shading) < 3);
        assert(0 <= shape_index(a.shape) < 3);
        assert(0 <= number_index(a.number) < 3);
        assert(0 <= colour_index(b.colour) < 3);
        assert(0 <= shading_index(b.shading) < 3);
        assert(0 <= shape_index(b.shape) < 3);
        assert(0 <= number_index(b.number) < 3);
        assert(colour_index(a.colour) == colour_index(b.colour));
        assert(shading_index(a.shading) == shading_index(b.shading));
        assert(shape_index(a.shape) == shape_index(b.shape));
        assert(number_index(a.number) == number_index(b.number));
        assert(a.colour == b.colour);
        assert(a.shading == b.shading);
        assert(a.shape == b.shape);
        assert(a.number == b.number);
    }
}

impl Card {
    /// Read-only accessor for the card's colour.
    pub fn colour(&self) -> (r: &Colour)
        ensures
            *r == self.colour,
    {
        &self.colour
    }

    /// Read-only accessor for the card's shape.
    pub fn shape(&self) -> (r: &Shape)
        ensures
            *r == self.shape,
    {
        &self.shape
    }

    /// Read-only accessor for the card's shading.
    pub fn shading(&self) -> (r: &Shading)
        ensures
            *r == self.shading,
    {
        &self.shading
    }

    /// Read-only accessor for the card's number.
    pub fn number(&self) -> (r: &Number)
        ensures
            *r == self.number,
    {
        &self.number
    }

    /// The complete deck: every combination of the four attribute domains,
    /// each exactly once. The card at position `k` has deck position `k`,
    /// so the 81 cards are pairwise distinct and every card appears.
    pub fn all() -> (r: Vec<Card>)
        ensures
            r@.len() == 81,
            forall|k: int| 0 <= k < 81 ==> card_index(#[trigger] r@[k]) == k,
            forall|i: int, j: int| 0 <= i < j < 81 ==> r@[i] != r@[j],
            forall|c: Card| 0 <= #[trigger] card_index(c) < 81 && r@[card_index(c)] == c,
    {
        let mut all_cards: Vec<Card> = Vec::with_capacity(81);
        let mut ci: usize = 0;
        while ci < 3
            invariant
                ci <= 3,
                all_cards@.len() == 27 * ci,
                forall|k: int| 0 <= k < all_cards@.len()
                    ==> card_index(#[trigger] all_cards@[k]) == k,
            decreases 3 - ci,
        {
            let colour = if ci == 0 {
                Colour::Red
            } else if ci == 1 {
                Colour::Green
            } else {
                Colour::Blue
            };
            let mut di: usize = 0;
            while di < 3
                invariant
                    ci < 3,
                    di <= 3,
                    colour_index(colour) == ci,
                    all_cards@.len() == 27 * ci + 9 * di,
                    forall|k: int| 0 <= k < all_cards@.len()
                        ==> card_index(#[trigger] all_cards@[k]) == k,
                decreases 3 - di,
            {
                let shading = if di == 0 {
                    Shading::Filled
                } else if di == 1 {
                    Shading::Hatched
                } else {
                    Shading::Unshaded
                };
                let mut si: usize = 0;
                while si < 3
                    invariant
                        ci < 3,
                        di < 3,
                        si <= 3,
                        colour_index(colour) == ci,
                        shading_index(shading) == di,
                        all_cards@.len() == 27 * ci + 9 * di + 3 * si,
                        forall|k: int| 0 <= k < all_cards@.len()
                            ==> card_index(#[trigger] all_cards@[k]) == k,
                    decreases 3 - si,
                {
                    let shape = if si == 0 {
                        Shape::Shape1
                    } else if si == 1 {
                        Shape::Shape2
                    } else {
                        Shape::Shape3
                    };
                    let mut ni: usize = 0;
                    while ni < 3
                        invariant
                            ci < 3,
                            di < 3,
                            si < 3,
                            ni <= 3,
                            colour_index(colour) == ci,
                            shading_index(shading) == di,
                            shape_index(shape) == si,
                            all_cards@.len() == 27 * ci + 9 * di + 3 * si + ni,
                            forall|k: int| 0 <= k < all_cards@.len()
                                ==> card_index(#[trigger] all_cards@[k]) == k,
                        decreases 3 - ni,
                    {
                        let number = if ni == 0 {
                            Number::One
                        } else if ni == 1 {
                            Number::Two
                        } else {
                            Number::Three
                        };
                        all_cards.push(
                            Card { colour, shape, shading, number },
                        );
                        ni += 1;
                    }
                    si += 1;
                }
                di += 1;
            }
            ci += 1;
        }
        proof {
            assert forall|c: Card|
                0 <= #[trigger] card_index(c) < 81 && all_cards@[card_index(c)] == c by {
                lemma_card_index_bounds(c);
                lemma_card_index_injective(all_cards@[card_index(c)], c);
            }
        }
        all_cards
    }

    /// The card's deck position, as a machine integer.
    pub fn encoding(&self) -> (r: u8)
        ensures
            r as int == card_index(*self),
    {
        let c: u8 = match self.colour {
            Colour::Red => 0,
            Colour::Green => 1,
            Colour::Blue => 2,
        };
        let d: u8 = match self.shading {
            Shading::Filled => 0,
            Shading::Hatched => 1,
            Shading::Unshaded => 2,
        };
        let s: u8 = match self.shape {
            Shape::Shape1 => 0,
            Shape::Shape2 => 1,
            Shape::Shape3 => 2,
        };
        let n: u8 = match self.number {
            Number::One => 0,
            Number::Two => 1,
            Number::Three => 2,
        };
        27 * c + 9 * d + 3 * s + n
    }
}

} // verus!
