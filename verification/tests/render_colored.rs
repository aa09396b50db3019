use tetromino::rotation_report;
use tetromino::Shape;
use tetromino::Tetromino;

fn colored(piece: &Tetromino) -> String {
    colored::control::set_override(true);
    piece.render()
}

#[test]
fn cells_are_bold_and_in_colour() {
    let cyan = "\u{1b}[1;36mX\u{1b}[0m";
    assert_eq!(colored(&Tetromino::new(Shape::I)), format!("{0}{0}{0}{0}\n", cyan));
    let blue = "\u{1b}[1;34mX\u{1b}[0m";
    assert_eq!(colored(&Tetromino::new(Shape::J)), format!("{0}  \n{0}{0}{0}\n", blue));
    let yellow = "\u{1b}[1;33mX\u{1b}[0m";
    assert_eq!(colored(&Tetromino::new(Shape::O)), format!("{0}{0}\n{0}{0}\n", yellow));
    let green = "\u{1b}[1;32mX\u{1b}[0m";
    assert_eq!(colored(&Tetromino::new(Shape::S)), format!(" {0}{0}\n{0}{0} \n", green));
    let red = "\u{1b}[1;31mX\u{1b}[0m";
    assert_eq!(colored(&Tetromino::new(Shape::Z)), format!("{0}{0} \n {0}{0}\n", red));
}

#[test]
fn every_cell_of_a_rendering_is_decorated_alike() {
    for shape in Shape::all() {
        let text = colored(&Tetromino::new(shape));
        let start = text.find('\u{1b}').unwrap();
        let end = text.find("\u{1b}[0m").unwrap() + 4;
        let mark = &text[start..end];
        assert!(mark.starts_with("\u{1b}[1;"));
        assert!(mark.ends_with("mX\u{1b}[0m"));
        assert_eq!(text.matches(mark).count(), 4);
        let stripped = text.replace(mark, "X");
        assert!(stripped.chars().all(|c| c == 'X' || c == ' ' || c == '\n'));
    }
}

#[test]
fn colour_stays_through_rotation() {
    let mut piece = Tetromino::new(Shape::I);
    piece.rotate_cw();
    let cyan = "\u{1b}[1;36mX\u{1b}[0m";
    assert_eq!(colored(&piece), format!("{0}\n{0}\n{0}\n{0}\n", cyan));
}

#[test]
fn report_is_in_colour() {
    colored::control::set_override(true);
    let red = "\u{1b}[1;31mX\u{1b}[0m";
    let expected = format!(
        "Before:\n{0}{0} \n {0}{0}\n\nAfter:\n {0}\n{0}{0}\n{0} \n\nRestored: \n{0}{0} \n {0}{0}\n",
        red
    );
    assert_eq!(rotation_report(&Tetromino::new(Shape::Z)), expected);
}
