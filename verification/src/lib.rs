//! Cards for the pattern-matching game "Set", and the rule that decides
//! whether three cards form a legal Set: for each of the four attributes
//! (colour, shape, shading, number) the three values must be all the same
//! or all pairwise different.

pub mod card;
pub mod game;
