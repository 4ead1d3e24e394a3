//! Candidate trios and the Set rule: a trio of three distinct cards is a
//! legal Set exactly when, for each of the four attributes, the number of
//! distinct values across the three cards is 1 or 3 — never 2.

use vstd::prelude::*;
use crate::card::{
    Card, Colour, Shape, Shading, Number, card_index, colour_index, shape_index, shading_index,
    number_index, lemma_card_index_injective,
};

verus! {

/// One of the four attributes of a card.
#[derive(Debug, PartialEq, Eq, Copy, Clone, Structural)]
pub enum Attribute {
    Colour,
    Shape,
    Shading,
    Number,
}

/// The enumeration position of the given attribute's value on a card.
/// Each domain has three members, so the position is 0, 1 or 2, and two
/// cards agree on the attribute exactly when the positions are equal.
pub open spec fn attr_value(c: Card, a: Attribute) -> int {
    match a {
        Attribute::Colour => colour_index(c.colour),
        Attribute::Shape => shape_index(c.shape),
        Attribute::Shading => shading_index(c.shading),
        Attribute::Number => number_index(c.number),
    }
}

/// How many distinct values appear among three: 1, 2 or 3.
pub open spec fn distinct_count3(x: int, y: int, z: int) -> int {
    if x == y && y == z {
        1
    } else if x != y && y != z && x != z {
        3
    } else {
        2
    }
}

/// One attribute obeys the Set rule across three cards: its values are
/// all the same or all pairwise different.
pub open spec fn attr_ok(c0: Card, c1: Card, c2: Card, a: Attribute) -> bool {
    let n = distinct_count3(attr_value(c0, a), attr_value(c1, a), attr_value(c2, a));
    n == 1 || n == 3
}

/// Three cards form a legal Set: every attribute obeys the Set rule.
pub open spec fn is_legal_set(c0: Card, c1: Card, c2: Card) -> bool {
    &&& attr_ok(c0, c1, c2, Attribute::Colour)
    &&& attr_ok(c0, c1, c2, Attribute::Shape)
    &&& attr_ok(c0, c1, c2, Attribute::Shading)
    &&& attr_ok(c0, c1, c2, Attribute::Number)
}

/// Three cards in canonical order: strictly ascending deck position, which
/// makes them pairwise distinct.
pub open spec fn sorted_trio(s: Seq<Card>) -> bool {
    &&& s.len() == 3
    &&& card_index(s[0]) < card_index(s[1])
    &&& card_index(s[1]) < card_index(s[2])
}

/// The set of cards held by a three-card sequence.
pub open spec fn trio_set(s: Seq<Card>) -> Set<Card> {
    set![s[0], s[1], s[2]]
}

/// A candidate trio: three pairwise-distinct cards, held in canonical
/// order so that equality of values is equality of the underlying card
/// sets, independent of the order the cards were supplied in.
#[derive(Debug, PartialEq, Eq, Structural)]
pub struct PossibleSet {
    c0: Card,
    c1: Card,
    c2: Card,
}

impl View for PossibleSet {
    type V = Seq<Card>;

    closed spec fn view(&self) -> Seq<Card> {
        seq![self.c0, self.c1, self.c2]
    }
}

/// Why a candidate trio could not be built.
#[derive(Debug, PartialEq, Eq, Copy, Clone, Structural)]
pub enum PossibleSetCreationError {
    /// At least two of the three supplied cards were equal.
    NotDistinct,
}

/// A validated Set: three pairwise-distinct cards that satisfy the Set
/// rule for every attribute. Produced only by `PossibleSet::try_to_set`.
#[derive(Debug, PartialEq, Eq, Structural)]
pub struct ValidSet {
    c0: Card,
    c1: Card,
    c2: Card,
}

impl View for ValidSet {
    type V = Seq<Card>;

    closed spec fn view(&self) -> Seq<Card> {
        seq![self.c0, self.c1, self.c2]
    }
}

/// The enumeration position of the given attribute's value, as a machine
/// integer.
fn attr_code(c: &Card, a: Attribute) -> (r: u8)
    ensures
        r as int == attr_value(*c, a),
{
    match a {
        Attribute::Colour => match c.colour {
            Colour::Red => 0,
            Colour::Green => 1,
            Colour::Blue => 2,
        },
        Attribute::Shape => match c.shape {
            Shape::Shape1 => 0,
            Shape::Shape2 => 1,
            Shape::Shape3 => 2,
        },
        Attribute::Shading => match c.shading {
            Shading::Filled => 0,
            Shading::Hatched => 1,
            Shading::Unshaded => 2,
        },
        Attribute::Number => match c.number {
            Number::One => 0,
            Number::Two => 1,
            Number::Three => 2,
        },
    }
}

impl PossibleSet {
    /// Builds a candidate trio from exactly three cards. Succeeds exactly
    /// when the three cards are pairwise distinct; otherwise fails with
    /// `NotDistinct`. The resulting trio holds the same card set as the
    /// input, in canonical order.
    pub fn from_three(cards: [Card; 3]) -> (r: Result<PossibleSet, PossibleSetCreationError>)
        ensures
            (r is Ok) <==> (cards[0] != cards[1] && cards[0] != cards[2] && cards[1] != cards[2]),
            r matches Ok(p) ==> sorted_trio(p@) && trio_set(p@) == trio_set(cards@),
            r matches Err(e) ==> e == PossibleSetCreationError::NotDistinct,
    {
        let a = cards[0];
        let b = cards[1];
        let c = cards[2];
        if a == b || a == c || b == c {
            return Err(PossibleSetCreationError::NotDistinct);
        }
        proof {
            lemma_card_index_injective(a, b);
            lemma_card_index_injective(a, c);
            lemma_card_index_injective(b, c);
        }
        let (x, y) = if a.encoding() < b.encoding() {
            (a, b)
        } else {
            (b, a)
        };
        let p = if c.encoding() < x.encoding() {
            PossibleSet { c0: c, c1: x, c2: y }
        } else if c.encoding() < y.encoding() {
            PossibleSet { c0: x, c1: c, c2: y }
        } else {
            PossibleSet { c0: x, c1: y, c2: c }
        };
        proof {
            assert(trio_set(p@) =~= trio_set(cards@));
        }
        Ok(p)
    }

    /// Counts the distinct values taken by one attribute across the
    /// trio's three cards. The count is always 1, 2 or 3.
    pub fn count_distinct(&self, a: Attribute) -> (r: u8)
        ensures
            r as int == distinct_count3(
                attr_value(self@[0], a),
                attr_value(self@[1], a),
                attr_value(self@[2], a),
            ),
            1 <= r <= 3,
    {
        let x = attr_code(&self.c0, a);
        let y = attr_code(&self.c1, a);
        let z = attr_code(&self.c2, a);
        if x == y && y == z {
            1
        } else if x != y && y != z && x != z {
            3
        } else {
            2
        }
    }

    /// Checks the Set rule. Returns a validated Set holding the trio's
    /// cards exactly when every attribute's distinct-count is 1 or 3;
    /// returns nothing — a definite negative, not an error — exactly when
    /// some attribute's distinct-count is 2.
    pub fn try_to_set(&self) -> (r: Option<ValidSet>)
        ensures
            (r is Some) <==> is_legal_set(self@[0], self@[1], self@[2]),
            (r is None) <==> exists|a: Attribute|
                distinct_count3(
                    attr_value(self@[0], a),
                    attr_value(self@[1], a),
                    attr_value(self@[2], a),
                ) == 2,
            r matches Some(s) ==> s@ == self@,
    {
        let n_colour = self.count_distinct(Attribute::Colour);
        let n_shape = self.count_distinct(Attribute::Shape);
        let n_shading = self.count_distinct(Attribute::Shading);
        let n_number = self.count_distinct(Attribute::Number);
        if (n_colour == 1 || n_colour == 3) && (n_shape == 1 || n_shape == 3) && (n_shading == 1
            || n_shading == 3) && (n_number == 1 || n_number == 3) {
            let s = ValidSet { c0: self.c0, c1: self.c1, c2: self.c2 };
            proof {
                assert(s@ =~= self@);
            }
            Some(s)
        } else {
            None
        }
    }
}

/// The Set rule depends only on which cards a trio holds, not on the
/// order it holds them in: a canonical trio with the same card set as the
/// distinct triple `(a, b, c)` satisfies the rule exactly when the triple
/// does.
pub proof fn lemma_legal_set_order_independent(p: PossibleSet, a: Card, b: Card, c: Card)
    requires
        a != b,
        a != c,
        b != c,
        sorted_trio(p@),
        trio_set(p@) == trio_set(seq![a, b, c]),
    ensures
        is_legal_set(p@[0], p@[1], p@[2]) == is_legal_set(a, b, c),
{
    lemma_sorted_trio_distinct(p@);
    assert(trio_set(seq![a, b, c]).contains(p@[0]));
    assert(trio_set(seq![a, b, c]).contains(p@[1]));
    assert(trio_set(seq![a, b, c]).contains(p@[2]));
    assert(trio_set(p@).contains(a));
    assert(trio_set(p@).contains(b));
    assert(trio_set(p@).contains(c));
}

/// A trio in canonical order is determined by the set of cards it holds:
/// two canonical trios with the same card set are equal.
pub proof fn lemma_sorted_trio_unique(p: PossibleSet, q: PossibleSet)
    requires
        sorted_trio(p@),
        sorted_trio(q@),
        trio_set(p@) == trio_set(q@),
    ensures
        p == q,
{
    assert(trio_set(q@).contains(p@[0]));
    assert(trio_set(q@).contains(p@[1]));
    assert(trio_set(q@).contains(p@[2]));
    assert(trio_set(p@).contains(q@[0]));
    assert(trio_set(p@).contains(q@[1]));
    assert(trio_set(p@).contains(q@[2]));
    assert(p.c0 == q.c0 && p.c1 == q.c1 && p.c2 == q.c2);
}

/// Three cards in canonical order are pairwise distinct.
pub proof fn lemma_sorted_trio_distinct(s: Seq<Card>)
    requires
        sorted_trio(s),
    ensures
        s[0] != s[1],
        s[0] != s[2],
        s[1] != s[2],
{
}

/// Order independence: trios built from the same three distinct cards are
/// equal, whatever order the cards were supplied in. `p` and `q` stand for
/// the results of building from `[a, b, c]` and from `[c, a, b]`, as
/// `PossibleSet::from_three` describes them.
pub proof fn lemma_trio_order_independent(a: Card, b: Card, c: Card, p: PossibleSet, q: PossibleSet)
    requires
        a != b,
        a != c,
        b != c,
        sorted_trio(p@),
        trio_set(p@) == trio_set(seq![a, b, c]),
        sorted_trio(q@),
        trio_set(q@) == trio_set(seq![c, a, b]),
    ensures
        p == q,
{
    assert(trio_set(seq![a, b, c]) =~= trio_set(seq![c, a, b]));
    lemma_sorted_trio_unique(p, q);
}

impl ValidSet {
    /// The three cards of the validated Set, in the trio's canonical
    /// order: exactly three, pairwise distinct whenever the trio was.
    pub fn cards(&self) -> (r: Vec<Card>)
        ensures
            r@ == self@,
    {
        let mut v: Vec<Card> = Vec::with_capacity(3);
        v.push(self.c0);
        v.push(self.c1);
        v.push(self.c2);
        proof {
            assert(v@ =~= self@);
        }
        v
    }
}

} // verus!
