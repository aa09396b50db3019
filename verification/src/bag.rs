//! Bags: the seven tetrominoes, one of each shape, in a random order.

use vstd::prelude::*;
use rand::seq::SliceRandom;
use crate::piece::Tetromino;
use crate::shape::all_shapes;
use crate::shape::base_grid;
use crate::shape::lemma_all_shapes_complete;
use crate::shape::Shape;

verus! {

/// The shapes of the tetrominoes of a bag, in the order of the bag.
pub open spec fn shapes_of(bag: Seq<Tetromino>) -> Seq<Shape> {
    Seq::new(bag.len(), |i: int| bag[i].shape())
}

/// Every tetromino of the bag is in the base layout of its shape.
pub open spec fn all_fresh(bag: Seq<Tetromino>) -> bool {
    forall|i: int| 0 <= i < bag.len() ==> (#[trigger] bag[i])@ == base_grid(bag[i].shape())
}

/// A full bag holds the same shapes as the catalogue, each as often as
/// there, and every tetromino in it is in its base layout.
pub open spec fn is_full_bag(bag: Seq<Tetromino>) -> bool {
    &&& shapes_of(bag).to_multiset() == all_shapes().to_multiset()
    &&& all_fresh(bag)
}

/// Calls `rand::seq::SliceRandom::shuffle` on the shapes, with the generator
/// that `rand::thread_rng` hands out.
///
/// The order that comes out is left open. Assumed here: the call only moves
/// the items, so the same shapes are there afterwards, each as often as
/// before.
#[verifier::external_body]
fn shuffle(order: &mut Vec<Shape>)
    ensures
        final(order)@.to_multiset() == old(order)@.to_multiset(),
{
    order.shuffle(&mut rand::thread_rng());
}

/// One fresh tetromino for each shape of `order`, in that order.
pub fn bag_in_order(order: &Vec<Shape>) -> (bag: Vec<Tetromino>)
    ensures
        shapes_of(bag@) == order@,
        all_fresh(bag@),
{
    let mut bag: Vec<Tetromino> = Vec::new();
    let mut i: usize = 0;
    while i < order.len()
        invariant
            i <= order.len(),
            bag.len() == i,
            forall|k: int| 0 <= k < i ==> (#[trigger] bag@[k]).shape() == order@[k],
            all_fresh(bag@),
        decreases order.len() - i,
    {
        bag.push(Tetromino::new(order[i]));
        i += 1;
    }
    bag
}

/// A full bag in a random order: seven tetrominoes, one of each shape, each
/// in its base layout.
pub fn generate_bag() -> (bag: Vec<Tetromino>)
    ensures
        is_full_bag(bag@),
        bag@.len() == 7,
{
    let mut order = Shape::all();
    shuffle(&mut order);
    let bag = bag_in_order(&order);
    proof {
        lemma_full_bag_has_seven(bag@);
    }
    bag
}

/// A full bag has exactly seven tetrominoes.
pub proof fn lemma_full_bag_has_seven(bag: Seq<Tetromino>)
    requires
        is_full_bag(bag),
    ensures
        bag.len() == 7,
{
    broadcast use vstd::seq_lib::group_to_multiset_ensures;

    assert(shapes_of(bag).to_multiset().len() == all_shapes().to_multiset().len());
}

/// In a full bag every shape occurs exactly once: none is missing and none
/// comes twice.
pub proof fn lemma_full_bag_has_each_shape_once(bag: Seq<Tetromino>, shape: Shape)
    requires
        is_full_bag(bag),
    ensures
        shapes_of(bag).to_multiset().count(shape) == 1,
        shapes_of(bag).contains(shape),
        shapes_of(bag).no_duplicates(),
{
    broadcast use vstd::seq_lib::group_to_multiset_ensures;

    lemma_all_shapes_complete(shape);
    all_shapes().lemma_multiset_has_no_duplicates();
    shapes_of(bag).lemma_multiset_has_no_duplicates_conv();
}

} // verus!
