//! Tetromino pieces as small rectangular grids of cells.
//!
//! The crate models the seven tetromino shapes, their canonical layouts and
//! display colours, quarter-turn rotation of a piece, text rendering, and the
//! drawing of a shuffled bag that holds every shape once. Every function is
//! verified against a mathematical model: a grid is a sequence of rows, each
//! row a sequence of cells.
//!
//! Two calls leave the verified code, and what is assumed of them is stated
//! where they are made: the colouring of a glyph by the `colored` crate in
//! [`render`], and the shuffling of the shapes by the `rand` crate in
//! [`bag`]. Whatever they hand back, the contracts of the functions that
//! use them hold.

pub mod bag;
pub mod cells;
pub mod grid;
pub mod piece;
pub mod render;
pub mod report;
pub mod shape;

pub use crate::bag::bag_in_order;
pub use crate::bag::generate_bag;
pub use crate::grid::validate_grid;
pub use crate::grid::matrix_reflect;
pub use crate::grid::matrix_transpose;
pub use crate::grid::GridError;
pub use crate::piece::Tetromino;
pub use crate::render::render_grid;
pub use crate::report::rotation_report;
pub use crate::shape::Color;
pub use crate::shape::Shape;
