//! The rotation report: a tetromino drawn as it is, after a clockwise
//! quarter turn, and after the counter-clockwise turn that brings it back.

use vstd::prelude::*;
use vstd::string::StringExecFns;
use crate::grid::lemma_cw_then_ccw;
use crate::grid::rotated_cw;
use crate::piece::Tetromino;
use crate::render::escape;
use crate::render::paint;
use crate::render::render_grid;
use crate::render::rendered;

verus! {

/// The text of the report on a tetromino whose grid is `g`: three headed
/// blocks. The first shows `g`, the second `g` after a clockwise quarter
/// turn, the third `g` again.
pub open spec fn report_text(g: Seq<Seq<bool>>, mark: Seq<char>) -> Seq<char> {
    "Before:\n"@ + rendered(g, mark) + "\nAfter:\n"@ + rendered(rotated_cw(g), mark)
        + "\nRestored: \n"@ + rendered(g, mark)
}

/// Reports on a quarter turn and back. A copy of the tetromino is turned
/// clockwise, and a copy of that is turned counter-clockwise; the report
/// shows the tetromino, the first copy and the second, which looks like the
/// tetromino again. The tetromino itself is left as it is. All three are
/// drawn as [`Tetromino::render`] draws them, with the same text around
/// every `X`.
pub fn rotation_report(tetromino: &Tetromino) -> (text: String)
    ensures
        exists|before: Seq<char>, after: Seq<char>|
            text@ == report_text(tetromino@, before + seq!['X'] + after),
{
    proof {
        reveal_strlit("X");
    }
    assert("X"@ =~= seq!['X']);
    assert(!"X"@.contains(escape()));
    let painted = paint("X", tetromino.shape().color());
    let mark = painted.as_str();
    let mut rotated = tetromino.clone();
    rotated.rotate_cw();
    let mut restored = rotated.clone();
    restored.rotate_ccw();
    let first = render_grid(tetromino.blocks(), mark);
    let second = render_grid(rotated.blocks(), mark);
    let third = render_grid(restored.blocks(), mark);
    proof {
        lemma_cw_then_ccw(tetromino@);
    }
    let mut text = String::new();
    text.append("Before:\n");
    text.append(first.as_str());
    text.append("\nAfter:\n");
    text.append(second.as_str());
    text.append("\nRestored: \n");
    text.append(third.as_str());
    proof {
        let (before, after) = choose|before: Seq<char>, after: Seq<char>|
            painted@ == before + "X"@ + after;
        assert(text@ =~= report_text(tetromino@, before + seq!['X'] + after));
    }
    text
}

} // verus!
