//! The canonical framed render of a whole board, as seen by one viewer.

use vstd::prelude::*;
use vstd::string::*;
use crate::board::{Board, BoardView};
use crate::coord::Coord;
use crate::piece::Colour;
use crate::tile::show_spec;

verus! {

/// The first `n` cells of display row `y`, each rendered into a
/// three-character field around its fog-of-war glyph.
pub open spec fn row_cells(b: BoardView, viewer: Colour, y: int, n: int) -> Seq<char>
    decreases n,
{
    if n <= 0 {
        Seq::empty()
    } else {
        row_cells(b, viewer, y, n - 1) + " "@ + show_spec(b.tile_of(n - 1, y), viewer) + " "@
    }
}

/// The first `n` framed display rows, top row first.
pub open spec fn rows(b: BoardView, viewer: Colour, n: int) -> Seq<char>
    decreases n,
{
    if n <= 0 {
        Seq::empty()
    } else {
        rows(b, viewer, n - 1) + "│"@ + row_cells(b, viewer, n - 1, 10) + "│\n"@
    }
}

/// The full framed grid as seen by `viewer`: a top frame line, the ten
/// display rows, and a closing frame line.
pub open spec fn render_spec(b: BoardView, viewer: Colour) -> Seq<char> {
    "┌──────────────────────────────┐\n"@ + rows(b, viewer, 10)
        + "└──────────────────────────────┘"@
}

impl Board {
    /// Returns the formatted game state as seen by `player`, blanking out
    /// the pieces that the player does not own.
    pub fn display_to(&self, player: Colour) -> (r: String)
        requires
            self@.wf(),
        ensures
            r@ == render_spec(self@, player),
    {
        let mut s = String::new();
        s.append("┌──────────────────────────────┐\n");
        let mut y: u16 = 0;
        while y < 10
            invariant
                self@.wf(),
                y <= 10,
                s@ == "┌──────────────────────────────┐\n"@ + rows(self@, player, y as int),
            decreases 10 - y,
        {
            s.append("│");
            let mut x: u16 = 0;
            while x < 10
                invariant
                    self@.wf(),
                    x <= 10,
                    y < 10,
                    s@ == "┌──────────────────────────────┐\n"@ + rows(self@, player, y as int)
                        + "│"@ + row_cells(self@, player, y as int, x as int),
                decreases 10 - x,
            {
                s.append(" ");
                let t = self.tile_at(Coord { x, y });
                let g = t.show(player);
                s.append(g.as_str());
                s.append(" ");
                proof {
                    assert(s@ =~= "┌──────────────────────────────┐\n"@ + rows(
                        self@,
                        player,
                        y as int,
                    ) + "│"@ + row_cells(self@, player, y as int, x as int + 1));
                }
                x += 1;
            }
            s.append("│\n");
            proof {
                assert(s@ =~= "┌──────────────────────────────┐\n"@ + rows(
                    self@,
                    player,
                    y as int + 1,
                ));
            }
            y += 1;
        }
        s.append("└──────────────────────────────┘");
        proof {
            assert(s@ =~= render_spec(self@, player));
        }
        s
    }
}

} // verus!
