//! Text rendering of a grid: one line per row, one mark per filled cell.

use vstd::prelude::*;
use vstd::string::StringExecFns;
use colored::Colorize;
use crate::grid::grid_of;
use crate::piece::Tetromino;
use crate::shape::Color;

verus! {

/// The text of one row: `mark` for a filled cell, a blank for an empty one.
pub open spec fn rendered_row(row: Seq<bool>, mark: Seq<char>) -> Seq<char>
    decreases row.len(),
{
    if row.len() == 0 {
        Seq::empty()
    } else {
        rendered_row(row.drop_last(), mark) + (if row.last() {
            mark
        } else {
            seq![' ']
        })
    }
}

/// The text of a grid: the text of each row, top to bottom, each followed
/// by a line feed.
pub open spec fn rendered(g: Seq<Seq<bool>>, mark: Seq<char>) -> Seq<char>
    decreases g.len(),
{
    if g.len() == 0 {
        Seq::empty()
    } else {
        rendered(g.drop_last(), mark) + rendered_row(g.last(), mark) + seq!['\n']
    }
}

/// The character that starts every terminal escape sequence.
pub open spec fn escape() -> char {
    '\u{1b}'
}

/// Calls `colored::Colorize::color` and `colored::Colorize::bold` on `glyph`
/// and formats the outcome with its `Display` impl.
///
/// Whether escape sequences are written, and which, depends on the terminal
/// and on the variables that the process was started with. Assumed here: a
/// glyph without an escape character comes back unchanged, with nothing or
/// with some text before it and after it.
#[verifier::external_body]
pub(crate) fn paint(glyph: &str, color: Color) -> (painted: String)
    ensures
        !glyph@.contains(escape()) ==> exists|before: Seq<char>, after: Seq<char>|
            painted@ == before + glyph@ + after,
{
    let ink = match color {
        Color::Cyan => colored::Color::Cyan,
        Color::Blue => colored::Color::Blue,
        Color::Yellow => colored::Color::Yellow,
        Color::Green => colored::Color::Green,
        Color::Red => colored::Color::Red,
        Color::TrueColor { r, g, b } => colored::Color::TrueColor { r, g, b },
    };
    glyph.color(ink).bold().to_string()
}

/// Renders the rows as text: `mark` for every filled cell, a blank for
/// every empty one, and a line feed after every row.
pub fn render_grid(rows: &Vec<Vec<bool>>, mark: &str) -> (text: String)
    ensures
        text@ == rendered(grid_of(rows), mark@),
{
    let ghost g = grid_of(rows);
    let mut text = String::new();
    let mut i: usize = 0;
    while i < rows.len()
        invariant
            g == grid_of(rows),
            i <= rows.len(),
            text@ == rendered(g.take(i as int), mark@),
        decreases rows.len() - i,
    {
        let row = &rows[i];
        let ghost above = text@;
        let mut j: usize = 0;
        while j < row.len()
            invariant
                j <= row.len(),
                text@ == above + rendered_row(row@.take(j as int), mark@),
            decreases row.len() - j,
        {
            if row[j] {
                text.append(mark);
            } else {
                proof {
                    reveal_strlit(" ");
                }
                text.append(" ");
            }
            assert(row@.take(j + 1).drop_last() =~= row@.take(j as int));
            j += 1;
        }
        proof {
            reveal_strlit("\n");
        }
        text.append("\n");
        assert(row@.take(row.len() as int) =~= row@);
        assert(g.take(i + 1).drop_last() =~= g.take(i as int));
        i += 1;
    }
    assert(g.take(rows.len() as int) =~= g);
    text
}

impl Tetromino {
    /// Renders the current orientation as text, one line per row. An empty
    /// cell is a blank. A filled cell is an `X`, in bold and in the colour of
    /// the shape where the terminal takes colours: the same text stands
    /// before and after every `X` of one rendering, and it may be empty.
    pub fn render(&self) -> (text: String)
        ensures
            exists|before: Seq<char>, after: Seq<char>|
                text@ == rendered(self@, before + seq!['X'] + after),
    {
        proof {
            reveal_strlit("X");
        }
        assert("X"@ =~= seq!['X']);
        assert(!"X"@.contains(escape()));
        let mark = paint("X", self.shape().color());
        let text = render_grid(self.blocks(), mark.as_str());
        proof {
            let (before, after) = choose|before: Seq<char>, after: Seq<char>|
                mark@ == before + "X"@ + after;
            assert(text@ == rendered(self@, before + seq!['X'] + after));
        }
        text
    }
}

} // verus!
