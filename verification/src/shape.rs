//! The seven tetromino shapes, their canonical layouts and display colours.

use vstd::prelude::*;
use crate::cells::filled_cells;
use crate::cells::lemma_filled_cells_of_few_rows;
use crate::cells::lemma_filled_in_short_row;
use crate::grid::lemma_ccw_then_cw;
use crate::grid::lemma_cw_then_ccw;
use crate::grid::lemma_four_cw_turns;
use crate::grid::rotated_ccw;
use crate::grid::rotated_cw;
use crate::grid::well_formed;
use crate::grid::width;

verus! {

/// One of the seven tetromino shapes, named by the letter it looks like.
#[derive(Clone, Copy, Debug, PartialEq, Eq, Structural)]
pub enum Shape {
    I,
    J,
    L,
    O,
    S,
    Z,
    T,
}

/// A terminal colour: one of the named colours of the basic palette, or a
/// colour given by its red, green and blue parts.
#[derive(Clone, Copy, Debug, PartialEq, Eq, Structural)]
pub enum Color {
    Cyan,
    Blue,
    Yellow,
    Green,
    Red,
    TrueColor { r: u8, g: u8, b: u8 },
}

/// The colour in which a shape is drawn: cyan for I, blue for J, orange for
/// L, yellow for O, green for S, red for Z and purple for T.
pub open spec fn color_of(shape: Shape) -> Color {
    match shape {
        Shape::I => Color::Cyan,
        Shape::J => Color::Blue,
        Shape::L => Color::TrueColor { r: 255, g: 140, b: 0 },
        Shape::O => Color::Yellow,
        Shape::S => Color::Green,
        Shape::Z => Color::Red,
        Shape::T => Color::TrueColor { r: 128, g: 0, b: 128 },
    }
}

/// The layout of a shape before any rotation; `true` is a filled cell.
pub open spec fn base_grid(shape: Shape) -> Seq<Seq<bool>> {
    match shape {
        Shape::I => seq![seq![true, true, true, true]],
        Shape::J => seq![seq![true, false, false], seq![true, true, true]],
        Shape::L => seq![seq![false, false, true], seq![true, true, true]],
        Shape::O => seq![seq![true, true], seq![true, true]],
        Shape::S => seq![seq![false, true, true], seq![true, true, false]],
        Shape::Z => seq![seq![true, true, false], seq![false, true, true]],
        Shape::T => seq![seq![false, true, false], seq![true, true, true]],
    }
}

/// All shapes, each once, in the order I, J, L, O, S, Z, T.
pub open spec fn all_shapes() -> Seq<Shape> {
    seq![Shape::I, Shape::J, Shape::L, Shape::O, Shape::S, Shape::Z, Shape::T]
}

impl Shape {
    /// The colour in which this shape is drawn. It depends on the shape
    /// alone, so two calls on the same shape give the same colour.
    pub fn color(&self) -> (c: Color)
        ensures
            c == color_of(*self),
    {
        match self {
            Shape::I => Color::Cyan,
            Shape::J => Color::Blue,
            Shape::L => Color::TrueColor { r: 255, g: 140, b: 0 },
            Shape::O => Color::Yellow,
            Shape::S => Color::Green,
            Shape::Z => Color::Red,
            Shape::T => Color::TrueColor { r: 128, g: 0, b: 128 },
        }
    }

    /// All shapes, each once, in the order I, J, L, O, S, Z, T.
    pub fn all() -> (shapes: Vec<Shape>)
        ensures
            shapes@ == all_shapes(),
    {
        let shapes = vec![Shape::I, Shape::J, Shape::L, Shape::O, Shape::S, Shape::Z, Shape::T];
        shapes
    }
}

/// Every base layout can be rotated: I is 1 by 4, O is 2 by 2, and the
/// other five are 2 by 3.
pub proof fn lemma_base_grid_dimensions(shape: Shape)
    ensures
        well_formed(base_grid(shape)),
        base_grid(shape).len() == (if shape == Shape::I { 1nat } else { 2nat }),
        width(base_grid(shape)) == (match shape {
            Shape::I => 4nat,
            Shape::O => 2nat,
            _ => 3nat,
        }),
{
}

/// Every base layout has exactly four filled cells.
pub proof fn lemma_base_grid_has_four_cells(shape: Shape)
    ensures
        filled_cells(base_grid(shape)) == 4,
{
    let g = base_grid(shape);
    lemma_filled_cells_of_few_rows(g);
    lemma_filled_in_short_row(g[0]);
    if g.len() == 2 {
        lemma_filled_in_short_row(g[1]);
    }
}

/// For every shape, a clockwise quarter turn of the base layout followed by
/// a counter-clockwise one gives the base layout back, in its dimensions and
/// in every cell; so does the other order.
pub proof fn lemma_base_grid_turn_and_back(shape: Shape)
    ensures
        rotated_ccw(rotated_cw(base_grid(shape))) == base_grid(shape),
        rotated_cw(rotated_ccw(base_grid(shape))) == base_grid(shape),
{
    lemma_cw_then_ccw(base_grid(shape));
    lemma_ccw_then_cw(base_grid(shape));
}

/// For every shape, four clockwise quarter turns of the base layout give the
/// base layout back, in its dimensions and in every cell.
pub proof fn lemma_base_grid_four_turns(shape: Shape)
    ensures
        rotated_cw(rotated_cw(rotated_cw(rotated_cw(base_grid(shape))))) == base_grid(shape),
{
    lemma_four_cw_turns(base_grid(shape));
}

/// Different shapes are drawn in different colours.
pub proof fn lemma_colors_distinct(a: Shape, b: Shape)
    requires
        a != b,
    ensures
        color_of(a) != color_of(b),
{
}

/// Every shape occurs in the catalogue exactly once.
pub proof fn lemma_all_shapes_complete(shape: Shape)
    ensures
        all_shapes().contains(shape),
        all_shapes().no_duplicates(),
        all_shapes().len() == 7,
{
}

} // verus!
