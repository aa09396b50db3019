use tetromino::matrix_transpose;
use tetromino::Shape;
use tetromino::Tetromino;

const SHAPES: [Shape; 7] = [Shape::I, Shape::J, Shape::L, Shape::O, Shape::S, Shape::Z, Shape::T];

fn grid(rows: &[&[u8]]) -> Vec<Vec<bool>> {
    rows.iter().map(|row| row.iter().map(|cell| *cell == 1).collect()).collect()
}

fn filled(rows: &Vec<Vec<bool>>) -> usize {
    rows.iter().map(|row| row.iter().filter(|cell| **cell).count()).sum()
}

#[test]
fn base_layouts_match_catalogue() {
    assert_eq!(*Tetromino::new(Shape::I).blocks(), grid(&[&[1, 1, 1, 1]]));
    assert_eq!(*Tetromino::new(Shape::J).blocks(), grid(&[&[1, 0, 0], &[1, 1, 1]]));
    assert_eq!(*Tetromino::new(Shape::L).blocks(), grid(&[&[0, 0, 1], &[1, 1, 1]]));
    assert_eq!(*Tetromino::new(Shape::O).blocks(), grid(&[&[1, 1], &[1, 1]]));
    assert_eq!(*Tetromino::new(Shape::S).blocks(), grid(&[&[0, 1, 1], &[1, 1, 0]]));
    assert_eq!(*Tetromino::new(Shape::Z).blocks(), grid(&[&[1, 1, 0], &[0, 1, 1]]));
    assert_eq!(*Tetromino::new(Shape::T).blocks(), grid(&[&[0, 1, 0], &[1, 1, 1]]));
}

#[test]
fn new_keeps_the_shape() {
    for shape in SHAPES {
        assert_eq!(Tetromino::new(shape).shape(), shape);
    }
}

#[test]
fn base_layouts_have_four_cells() {
    for shape in SHAPES {
        assert_eq!(filled(Tetromino::new(shape).blocks()), 4);
    }
}

#[test]
fn every_orientation_has_four_cells() {
    for shape in SHAPES {
        let mut piece = Tetromino::new(shape);
        for _ in 0..4 {
            piece.rotate_cw();
            assert_eq!(filled(piece.blocks()), 4);
        }
    }
}

#[test]
fn base_dimensions() {
    for shape in SHAPES {
        let piece = Tetromino::new(shape);
        let expected = match shape {
            Shape::I => (1, 4),
            Shape::O => (2, 2),
            _ => (2, 3),
        };
        assert_eq!((piece.height(), piece.width()), expected);
    }
}

#[test]
fn clockwise_then_counter_clockwise_restores() {
    for shape in SHAPES {
        let fresh = Tetromino::new(shape);
        let mut piece = fresh.clone();
        piece.rotate_cw();
        piece.rotate_ccw();
        assert_eq!(piece.blocks(), fresh.blocks());
        assert_eq!(piece.shape(), shape);
    }
}

#[test]
fn counter_clockwise_then_clockwise_restores() {
    for shape in SHAPES {
        let fresh = Tetromino::new(shape);
        let mut piece = fresh.clone();
        piece.rotate_ccw();
        piece.rotate_cw();
        assert_eq!(piece.blocks(), fresh.blocks());
    }
}

#[test]
fn round_trip_from_every_orientation() {
    for shape in SHAPES {
        let mut piece = Tetromino::new(shape);
        for _ in 0..4 {
            let before = piece.clone();
            piece.rotate_cw();
            let mut back = piece.clone();
            back.rotate_ccw();
            assert_eq!(back.blocks(), before.blocks());
        }
    }
}

#[test]
fn four_clockwise_turns_restore() {
    for shape in SHAPES {
        let fresh = Tetromino::new(shape);
        let mut piece = fresh.clone();
        for _ in 0..4 {
            piece.rotate_cw();
        }
        assert_eq!(piece.blocks(), fresh.blocks());
    }
}

#[test]
fn four_counter_clockwise_turns_restore() {
    for shape in SHAPES {
        let fresh = Tetromino::new(shape);
        let mut piece = fresh.clone();
        for _ in 0..4 {
            piece.rotate_ccw();
        }
        assert_eq!(piece.blocks(), fresh.blocks());
    }
}

#[test]
fn rotation_swaps_dimensions() {
    for shape in SHAPES {
        let mut piece = Tetromino::new(shape);
        for _ in 0..4 {
            let (rows, columns) = (piece.height(), piece.width());
            piece.rotate_cw();
            assert_eq!((piece.height(), piece.width()), (columns, rows));
            assert!(piece.blocks().iter().all(|row| row.len() == rows));
        }
        let (rows, columns) = (piece.height(), piece.width());
        piece.rotate_ccw();
        assert_eq!((piece.height(), piece.width()), (columns, rows));
    }
}

#[test]
fn rotation_keeps_the_shape() {
    for shape in SHAPES {
        let mut piece = Tetromino::new(shape);
        piece.rotate_cw();
        assert_eq!(piece.shape(), shape);
        piece.rotate_ccw();
        piece.rotate_ccw();
        assert_eq!(piece.shape(), shape);
    }
}

#[test]
fn i_turns_into_a_column_and_back() {
    let mut piece = Tetromino::new(Shape::I);
    assert_eq!(*piece.blocks(), grid(&[&[1, 1, 1, 1]]));
    piece.rotate_cw();
    assert_eq!(*piece.blocks(), grid(&[&[1], &[1], &[1], &[1]]));
    assert_eq!((piece.height(), piece.width()), (4, 1));
    piece.rotate_cw();
    assert_eq!(*piece.blocks(), grid(&[&[1, 1, 1, 1]]));
    assert_eq!((piece.height(), piece.width()), (1, 4));
}

#[test]
fn i_counter_clockwise_is_a_column() {
    let mut piece = Tetromino::new(Shape::I);
    piece.rotate_ccw();
    assert_eq!(*piece.blocks(), grid(&[&[1], &[1], &[1], &[1]]));
}

#[test]
fn j_clockwise_and_back() {
    let mut piece = Tetromino::new(Shape::J);
    assert_eq!(*piece.blocks(), grid(&[&[1, 0, 0], &[1, 1, 1]]));
    piece.rotate_cw();
    assert_eq!(*piece.blocks(), grid(&[&[1, 1], &[1, 0], &[1, 0]]));
    assert_eq!((piece.height(), piece.width()), (3, 2));
    piece.rotate_ccw();
    assert_eq!(*piece.blocks(), grid(&[&[1, 0, 0], &[1, 1, 1]]));
}

#[test]
fn j_through_all_orientations() {
    let mut piece = Tetromino::new(Shape::J);
    piece.rotate_cw();
    assert_eq!(*piece.blocks(), grid(&[&[1, 1], &[1, 0], &[1, 0]]));
    piece.rotate_cw();
    assert_eq!(*piece.blocks(), grid(&[&[1, 1, 1], &[0, 0, 1]]));
    piece.rotate_cw();
    assert_eq!(*piece.blocks(), grid(&[&[0, 1], &[0, 1], &[1, 1]]));
    piece.rotate_cw();
    assert_eq!(*piece.blocks(), grid(&[&[1, 0, 0], &[1, 1, 1]]));
}

#[test]
fn j_counter_clockwise() {
    let mut piece = Tetromino::new(Shape::J);
    piece.rotate_ccw();
    assert_eq!(*piece.blocks(), grid(&[&[0, 1], &[0, 1], &[1, 1]]));
}

#[test]
fn l_clockwise() {
    let mut piece = Tetromino::new(Shape::L);
    piece.rotate_cw();
    assert_eq!(*piece.blocks(), grid(&[&[1, 0], &[1, 0], &[1, 1]]));
}

#[test]
fn s_and_z_clockwise() {
    let mut s = Tetromino::new(Shape::S);
    s.rotate_cw();
    assert_eq!(*s.blocks(), grid(&[&[1, 0], &[1, 1], &[0, 1]]));
    let mut z = Tetromino::new(Shape::Z);
    z.rotate_cw();
    assert_eq!(*z.blocks(), grid(&[&[0, 1], &[1, 1], &[1, 0]]));
}

#[test]
fn t_clockwise_and_counter_clockwise() {
    let mut piece = Tetromino::new(Shape::T);
    piece.rotate_cw();
    assert_eq!(*piece.blocks(), grid(&[&[1, 0], &[1, 1], &[1, 0]]));
    let mut other = Tetromino::new(Shape::T);
    other.rotate_ccw();
    assert_eq!(*other.blocks(), grid(&[&[0, 1], &[1, 1], &[0, 1]]));
}

#[test]
fn o_is_unchanged_by_rotation() {
    let mut piece = Tetromino::new(Shape::O);
    piece.rotate_cw();
    assert_eq!(*piece.blocks(), grid(&[&[1, 1], &[1, 1]]));
    let mut other = Tetromino::new(Shape::O);
    other.rotate_ccw();
    assert_eq!(*other.blocks(), grid(&[&[1, 1], &[1, 1]]));
}

#[test]
fn clone_is_independent() {
    let fresh = Tetromino::new(Shape::L);
    let mut copy = fresh.clone();
    assert_eq!(copy.blocks(), fresh.blocks());
    assert_eq!(copy.shape(), Shape::L);
    copy.rotate_cw();
    assert_eq!(*fresh.blocks(), grid(&[&[0, 0, 1], &[1, 1, 1]]));
    assert_ne!(copy.blocks(), fresh.blocks());
}

#[test]
fn transposing_alone_is_no_rotation() {
    let base = Tetromino::new(Shape::J);
    let mirrored = matrix_transpose(base.blocks());
    assert_eq!(mirrored, grid(&[&[1, 1], &[0, 1], &[0, 1]]));
    let mut piece = base.clone();
    for _ in 0..4 {
        assert_ne!(*piece.blocks(), mirrored);
        piece.rotate_cw();
    }
}
