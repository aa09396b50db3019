use tetromino::render_grid;
use tetromino::rotation_report;
use tetromino::Shape;
use tetromino::Tetromino;

fn plain(piece: &Tetromino) -> String {
    colored::control::set_override(false);
    piece.render()
}

#[test]
fn base_layouts_as_text() {
    assert_eq!(plain(&Tetromino::new(Shape::I)), "XXXX\n");
    assert_eq!(plain(&Tetromino::new(Shape::J)), "X  \nXXX\n");
    assert_eq!(plain(&Tetromino::new(Shape::L)), "  X\nXXX\n");
    assert_eq!(plain(&Tetromino::new(Shape::O)), "XX\nXX\n");
    assert_eq!(plain(&Tetromino::new(Shape::S)), " XX\nXX \n");
    assert_eq!(plain(&Tetromino::new(Shape::Z)), "XX \n XX\n");
    assert_eq!(plain(&Tetromino::new(Shape::T)), " X \nXXX\n");
}

#[test]
fn rotated_pieces_as_text() {
    let mut piece = Tetromino::new(Shape::J);
    piece.rotate_cw();
    assert_eq!(plain(&piece), "XX\nX \nX \n");
    piece.rotate_ccw();
    assert_eq!(plain(&piece), "X  \nXXX\n");
    let mut column = Tetromino::new(Shape::I);
    column.rotate_cw();
    assert_eq!(plain(&column), "X\nX\nX\nX\n");
}

#[test]
fn render_grid_uses_the_mark() {
    let rows = vec![vec![true, false], vec![false, true]];
    assert_eq!(render_grid(&rows, "#"), "# \n #\n");
    assert_eq!(render_grid(&rows, "[]"), "[] \n []\n");
    assert_eq!(render_grid(&rows, ""), " \n \n");
}

#[test]
fn render_grid_of_odd_grids() {
    let none: Vec<Vec<bool>> = Vec::new();
    assert_eq!(render_grid(&none, "X"), "");
    let empty_rows: Vec<Vec<bool>> = vec![vec![], vec![]];
    assert_eq!(render_grid(&empty_rows, "X"), "\n\n");
    let ragged = vec![vec![true], vec![false, true, true]];
    assert_eq!(render_grid(&ragged, "X"), "X\n XX\n");
}

#[test]
fn report_shows_the_turn_and_the_way_back() {
    colored::control::set_override(false);
    assert_eq!(
        rotation_report(&Tetromino::new(Shape::J)),
        "Before:\nX  \nXXX\n\nAfter:\nXX\nX \nX \n\nRestored: \nX  \nXXX\n"
    );
    assert_eq!(
        rotation_report(&Tetromino::new(Shape::I)),
        "Before:\nXXXX\n\nAfter:\nX\nX\nX\nX\n\nRestored: \nXXXX\n"
    );
    assert_eq!(
        rotation_report(&Tetromino::new(Shape::O)),
        "Before:\nXX\nXX\n\nAfter:\nXX\nXX\n\nRestored: \nXX\nXX\n"
    );
}

#[test]
fn report_starts_from_the_current_orientation() {
    colored::control::set_override(false);
    let mut piece = Tetromino::new(Shape::T);
    piece.rotate_cw();
    assert_eq!(
        rotation_report(&piece),
        "Before:\nX \nXX\nX \n\nAfter:\nXXX\n X \n\nRestored: \nX \nXX\nX \n"
    );
    assert_eq!(*piece.blocks(), vec![vec![true, false], vec![true, true], vec![true, false]]);
}

#[test]
fn report_is_made_of_three_renderings() {
    colored::control::set_override(false);
    for shape in Shape::all() {
        let piece = Tetromino::new(shape);
        let mut turned = piece.clone();
        turned.rotate_cw();
        let expected = format!(
            "Before:\n{}\nAfter:\n{}\nRestored: \n{}",
            piece.render(),
            turned.render(),
            piece.render()
        );
        assert_eq!(rotation_report(&piece), expected);
    }
}
