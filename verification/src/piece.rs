//! A tetromino: a shape together with the grid of its current orientation.

use vstd::prelude::*;
use crate::cells::filled_cells;
use crate::cells::lemma_rotation_keeps_filled_cells;
use crate::grid::grid_of;
use crate::grid::lemma_ccw_is_reflect_then_transpose;
use crate::grid::lemma_cw_is_transpose_then_reflect;
use crate::grid::lemma_cw_then_ccw;
use crate::grid::lemma_four_cw_turns;
use crate::grid::lemma_rotation_swaps_dimensions;
use crate::grid::matrix_reflect;
use crate::grid::matrix_transpose;
use crate::grid::rotated_ccw;
use crate::grid::rotated_cw;
use crate::grid::well_formed;
use crate::grid::width;
use crate::shape::base_grid;
use crate::shape::lemma_base_grid_dimensions;
use crate::shape::lemma_base_grid_has_four_cells;
use crate::shape::Shape;

verus! {

/// `g` is the base layout of `shape` after zero, one, two or three clockwise
/// quarter turns.
pub open spec fn is_orientation(shape: Shape, g: Seq<Seq<bool>>) -> bool {
    let g0 = base_grid(shape);
    let g1 = rotated_cw(g0);
    let g2 = rotated_cw(g1);
    let g3 = rotated_cw(g2);
    g == g0 || g == g1 || g == g2 || g == g3
}

/// Every orientation of a shape can be rotated.
pub proof fn lemma_orientation_well_formed(shape: Shape, g: Seq<Seq<bool>>)
    requires
        is_orientation(shape, g),
    ensures
        well_formed(g),
{
    let g0 = base_grid(shape);
    let g1 = rotated_cw(g0);
    let g2 = rotated_cw(g1);
    lemma_base_grid_dimensions(shape);
    lemma_rotation_swaps_dimensions(g0);
    lemma_rotation_swaps_dimensions(g1);
    lemma_rotation_swaps_dimensions(g2);
}

/// A quarter turn of an orientation of a shape, in either direction, is
/// again an orientation of that shape.
pub proof fn lemma_orientation_turns(shape: Shape, g: Seq<Seq<bool>>)
    requires
        is_orientation(shape, g),
    ensures
        is_orientation(shape, rotated_cw(g)),
        is_orientation(shape, rotated_ccw(g)),
{
    let g0 = base_grid(shape);
    let g1 = rotated_cw(g0);
    let g2 = rotated_cw(g1);
    let g3 = rotated_cw(g2);
    lemma_four_cw_turns(g0);
    lemma_cw_then_ccw(g0);
    lemma_cw_then_ccw(g1);
    lemma_cw_then_ccw(g2);
    lemma_cw_then_ccw(g3);
}

/// Every orientation of every shape has exactly four filled cells.
pub proof fn lemma_orientation_has_four_cells(shape: Shape, g: Seq<Seq<bool>>)
    requires
        is_orientation(shape, g),
    ensures
        filled_cells(g) == 4,
{
    let g0 = base_grid(shape);
    let g1 = rotated_cw(g0);
    let g2 = rotated_cw(g1);
    lemma_base_grid_has_four_cells(shape);
    lemma_rotation_keeps_filled_cells(g0);
    lemma_rotation_keeps_filled_cells(g1);
    lemma_rotation_keeps_filled_cells(g2);
}

/// A tetromino in one of the four orientations of its shape.
pub struct Tetromino {
    blocks: Vec<Vec<bool>>,
    shape: Shape,
}

impl View for Tetromino {
    type V = Seq<Seq<bool>>;

    /// The grid of the current orientation; `true` is a filled cell.
    closed spec fn view(&self) -> Seq<Seq<bool>> {
        grid_of(&self.blocks)
    }
}

/// The I tetromino in its base layout.
fn init_i() -> (t: Tetromino)
    ensures
        t@ == base_grid(Shape::I),
        t.shape() == Shape::I,
{
    let blocks = vec![vec![true, true, true, true]];
    assert(grid_of(&blocks) =~~= base_grid(Shape::I));
    Tetromino { blocks, shape: Shape::I }
}

/// The J tetromino in its base layout.
fn init_j() -> (t: Tetromino)
    ensures
        t@ == base_grid(Shape::J),
        t.shape() == Shape::J,
{
    let blocks = vec![vec![true, false, false], vec![true, true, true]];
    assert(grid_of(&blocks) =~~= base_grid(Shape::J));
    Tetromino { blocks, shape: Shape::J }
}

/// The L tetromino in its base layout.
fn init_l() -> (t: Tetromino)
    ensures
        t@ == base_grid(Shape::L),
        t.shape() == Shape::L,
{
    let blocks = vec![vec![false, false, true], vec![true, true, true]];
    assert(grid_of(&blocks) =~~= base_grid(Shape::L));
    Tetromino { blocks, shape: Shape::L }
}

/// The O tetromino in its base layout.
fn init_o() -> (t: Tetromino)
    ensures
        t@ == base_grid(Shape::O),
        t.shape() == Shape::O,
{
    let blocks = vec![vec![true, true], vec![true, true]];
    assert(grid_of(&blocks) =~~= base_grid(Shape::O));
    Tetromino { blocks, shape: Shape::O }
}

/// The S tetromino in its base layout.
fn init_s() -> (t: Tetromino)
    ensures
        t@ == base_grid(Shape::S),
        t.shape() == Shape::S,
{
    let blocks = vec![vec![false, true, true], vec![true, true, false]];
    assert(grid_of(&blocks) =~~= base_grid(Shape::S));
    Tetromino { blocks, shape: Shape::S }
}

/// The Z tetromino in its base layout.
fn init_z() -> (t: Tetromino)
    ensures
        t@ == base_grid(Shape::Z),
        t.shape() == Shape::Z,
{
    let blocks = vec![vec![true, true, false], vec![false, true, true]];
    assert(grid_of(&blocks) =~~= base_grid(Shape::Z));
    Tetromino { blocks, shape: Shape::Z }
}

/// The T tetromino in its base layout.
fn init_t() -> (t: Tetromino)
    ensures
        t@ == base_grid(Shape::T),
        t.shape() == Shape::T,
{
    let blocks = vec![vec![false, true, false], vec![true, true, true]];
    assert(grid_of(&blocks) =~~= base_grid(Shape::T));
    Tetromino { blocks, shape: Shape::T }
}

impl Tetromino {
    /// A tetromino always holds an orientation of its own shape.
    #[verifier::type_invariant]
    closed spec fn inv(&self) -> bool {
        is_orientation(self.shape, grid_of(&self.blocks))
    }

    /// The shape that this tetromino was made of.
    pub closed spec fn spec_shape(&self) -> Shape {
        self.shape
    }

    /// A tetromino of the given shape in its base layout.
    pub fn new(shape: Shape) -> (t: Tetromino)
        ensures
            t@ == base_grid(shape),
            t.shape() == shape,
            is_orientation(shape, t@),
    {
        match shape {
            Shape::I => init_i(),
            Shape::J => init_j(),
            Shape::L => init_l(),
            Shape::O => init_o(),
            Shape::S => init_s(),
            Shape::Z => init_z(),
            Shape::T => init_t(),
        }
    }

    /// The shape that this tetromino was made of. No rotation changes it.
    #[verifier::when_used_as_spec(spec_shape)]
    pub fn shape(&self) -> (s: Shape)
        ensures
            s == self.spec_shape(),
    {
        self.shape
    }

    /// The rows of the current orientation, top to bottom; `true` is a
    /// filled cell.
    pub fn blocks(&self) -> (rows: &Vec<Vec<bool>>)
        ensures
            grid_of(rows) == self@,
            is_orientation(self.shape(), self@),
    {
        proof {
            use_type_invariant(self);
        }
        &self.blocks
    }

    /// Number of rows of the current orientation.
    pub fn height(&self) -> (n: usize)
        ensures
            n == self@.len(),
    {
        self.blocks.len()
    }

    /// Number of columns of the current orientation.
    pub fn width(&self) -> (n: usize)
        ensures
            n == width(self@),
    {
        proof {
            use_type_invariant(self);
            lemma_orientation_well_formed(self.shape, self@);
        }
        self.blocks[0].len()
    }

    /// Turns the tetromino a quarter turn clockwise, in place: rows and
    /// columns change places, and the shape stays.
    pub fn rotate_cw(&mut self)
        ensures
            final(self)@ == rotated_cw(old(self)@),
            final(self)@.len() == width(old(self)@),
            width(final(self)@) == old(self)@.len(),
            final(self).shape() == old(self).shape(),
            is_orientation(old(self).shape(), old(self)@),
            is_orientation(final(self).shape(), final(self)@),
    {
        proof {
            use_type_invariant(&*self);
            lemma_orientation_turns(self.shape, self@);
            lemma_cw_is_transpose_then_reflect(self@);
        }
        let turned = matrix_transpose(&self.blocks);
        self.blocks = matrix_reflect(&turned);
    }

    /// Turns the tetromino a quarter turn counter-clockwise, in place: rows
    /// and columns change places, and the shape stays.
    pub fn rotate_ccw(&mut self)
        ensures
            final(self)@ == rotated_ccw(old(self)@),
            final(self)@.len() == width(old(self)@),
            width(final(self)@) == old(self)@.len(),
            final(self).shape() == old(self).shape(),
            is_orientation(old(self).shape(), old(self)@),
            is_orientation(final(self).shape(), final(self)@),
    {
        proof {
            use_type_invariant(&*self);
            lemma_orientation_turns(self.shape, self@);
            lemma_ccw_is_reflect_then_transpose(self@);
        }
        let mirrored = matrix_reflect(&self.blocks);
        self.blocks = matrix_transpose(&mirrored);
    }
}

impl Clone for Tetromino {
    /// A copy with the same shape in the same orientation.
    fn clone(&self) -> (copy: Self)
        ensures
            copy@ == self@,
            copy.shape() == self.shape(),
    {
        proof {
            use_type_invariant(self);
        }
        let mut blocks: Vec<Vec<bool>> = Vec::new();
        let mut i: usize = 0;
        while i < self.blocks.len()
            invariant
                i <= self.blocks.len(),
                blocks.len() == i,
                forall|k: int| 0 <= k < i ==> (#[trigger] blocks@[k])@ == self.blocks@[k]@,
            decreases self.blocks.len() - i,
        {
            let row = self.blocks[i].clone();
            blocks.push(row);
            i += 1;
        }
        assert(grid_of(&blocks) =~= grid_of(&self.blocks));
        Tetromino { blocks, shape: self.shape }
    }
}

} // verus!
