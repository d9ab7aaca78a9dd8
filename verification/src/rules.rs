//! End-of-game detection: a side loses with its flag gone, or with only
//! immobile pieces left.

use vstd::prelude::*;
use crate::board::{Board, BoardView};
use crate::coord::Coord;
use crate::piece::{immobile, Colour, Piece};
use crate::tile::Tile;

verus! {

/// How the game stands, from red's point of view.
#[derive(Copy, Clone, Eq, PartialEq, Structural, Debug)]
pub enum GameResult {
    RedWin,
    RedLoss,
    Draw,
    Ongoing,
}

/// Whether some cell of the board satisfies `p`.
pub open spec fn somewhere(b: BoardView, p: spec_fn(Tile) -> bool) -> bool {
    exists|x: int, y: int| 0 <= x < 10 && 0 <= y < 10 && p(#[trigger] b.tile_of(x, y))
}

/// Whether some cell strictly before `(x, y)` in scan order (whole
/// columns `a < x` first, then the cells `b < y` of column `x`)
/// satisfies `p`.
pub open spec fn somewhere_before(b: BoardView, p: spec_fn(Tile) -> bool, x: int, y: int) -> bool {
    exists|a: int, b2: int|
        0 <= a < 10 && 0 <= b2 < 10 && (a < x || (a == x && b2 < y)) && p(
            #[trigger] b.tile_of(a, b2),
        )
}

/// The tile holding this side's flag.
pub open spec fn flag_tile(col: Colour) -> spec_fn(Tile) -> bool {
    |t: Tile| t == Tile::Piece(Piece::Flag, col)
}

/// A tile holding a piece of this side that is not immobile.
pub open spec fn mobile_tile(col: Colour) -> spec_fn(Tile) -> bool {
    |t: Tile|
        match t {
            Tile::Piece(k, c) => c == col && !immobile(k),
            _ => false,
        }
}

/// Whether the side still holds its flag.
pub open spec fn side_has_flag(b: BoardView, col: Colour) -> bool {
    somewhere(b, flag_tile(col))
}

/// Whether the side holds any piece that could ever move.
pub open spec fn side_can_move(b: BoardView, col: Colour) -> bool {
    somewhere(b, mobile_tile(col))
}

/// The game result: a side whose flag is gone has lost, then a side with
/// only immobile pieces has lost; red is examined first in both rules;
/// otherwise play goes on.
pub open spec fn game_result_spec(b: BoardView) -> GameResult {
    if !side_has_flag(b, Colour::Red) {
        GameResult::RedLoss
    } else if !side_has_flag(b, Colour::Blue) {
        GameResult::RedWin
    } else if !side_can_move(b, Colour::Red) {
        GameResult::RedLoss
    } else if !side_can_move(b, Colour::Blue) {
        GameResult::RedWin
    } else {
        GameResult::Ongoing
    }
}

proof fn lemma_before_none(b: BoardView, p: spec_fn(Tile) -> bool)
    ensures
        !somewhere_before(b, p, 0, 0),
{
    if somewhere_before(b, p, 0, 0) {
        let (a, b2): (int, int) = choose|a: int, b2: int|
            0 <= a < 10 && 0 <= b2 < 10 && (a < 0 || (a == 0 && b2 < 0)) && p(b.tile_of(a, b2));
    }
}

proof fn lemma_before_cell(b: BoardView, p: spec_fn(Tile) -> bool, x: int, y: int)
    requires
        0 <= x < 10,
        0 <= y < 10,
    ensures
        somewhere_before(b, p, x, y + 1) == (somewhere_before(b, p, x, y) || p(b.tile_of(x, y))),
{
    if somewhere_before(b, p, x, y + 1) {
        let (a, b2): (int, int) = choose|a: int, b2: int|
            0 <= a < 10 && 0 <= b2 < 10 && (a < x || (a == x && b2 < y + 1)) && p(
                b.tile_of(a, b2),
            );
        if !(a == x && b2 == y) {
            assert(somewhere_before(b, p, x, y));
        }
    }
    if somewhere_before(b, p, x, y) {
        let (a, b2): (int, int) = choose|a: int, b2: int|
            0 <= a < 10 && 0 <= b2 < 10 && (a < x || (a == x && b2 < y)) && p(b.tile_of(a, b2));
        assert(somewhere_before(b, p, x, y + 1));
    }
    if p(b.tile_of(x, y)) {
        assert(somewhere_before(b, p, x, y + 1));
    }
}

proof fn lemma_before_row(b: BoardView, p: spec_fn(Tile) -> bool, x: int)
    requires
        0 <= x < 10,
    ensures
        somewhere_before(b, p, x, 10) == somewhere_before(b, p, x + 1, 0),
{
    if somewhere_before(b, p, x, 10) {
        let (a, b2): (int, int) = choose|a: int, b2: int|
            0 <= a < 10 && 0 <= b2 < 10 && (a < x || (a == x && b2 < 10)) && p(b.tile_of(a, b2));
        assert(somewhere_before(b, p, x + 1, 0));
    }
    if somewhere_before(b, p, x + 1, 0) {
        let (a, b2): (int, int) = choose|a: int, b2: int|
            0 <= a < 10 && 0 <= b2 < 10 && (a < x + 1 || (a == x + 1 && b2 < 0)) && p(
                b.tile_of(a, b2),
            );
        assert(somewhere_before(b, p, x, 10));
    }
}

proof fn lemma_before_all(b: BoardView, p: spec_fn(Tile) -> bool)
    ensures
        somewhere_before(b, p, 10, 0) == somewhere(b, p),
{
    if somewhere_before(b, p, 10, 0) {
        let (a, b2): (int, int) = choose|a: int, b2: int|
            0 <= a < 10 && 0 <= b2 < 10 && (a < 10 || (a == 10 && b2 < 0)) && p(b.tile_of(a, b2));
        assert(somewhere(b, p));
    }
    if somewhere(b, p) {
        let (a, b2): (int, int) = choose|a: int, b2: int|
            0 <= a < 10 && 0 <= b2 < 10 && p(#[trigger] b.tile_of(a, b2));
        assert(somewhere_before(b, p, 10, 0));
    }
}

impl Board {
    /// Scans the whole board and reports whether either side has lost
    /// its flag, or retains only immobile pieces.
    pub fn check_game_end(&self) -> (r: GameResult)
        requires
            self@.wf(),
        ensures
            r == game_result_spec(self@),
    {
        let mut red_flag = false;
        let mut blue_flag = false;
        let mut red_mobile = false;
        let mut blue_mobile = false;
        proof {
            lemma_before_none(self@, flag_tile(Colour::Red));
            lemma_before_none(self@, flag_tile(Colour::Blue));
            lemma_before_none(self@, mobile_tile(Colour::Red));
            lemma_before_none(self@, mobile_tile(Colour::Blue));
        }
        let mut x: u16 = 0;
        while x < 10
            invariant
                self@.wf(),
                x <= 10,
                red_flag == somewhere_before(self@, flag_tile(Colour::Red), x as int, 0),
                blue_flag == somewhere_before(self@, flag_tile(Colour::Blue), x as int, 0),
                red_mobile == somewhere_before(self@, mobile_tile(Colour::Red), x as int, 0),
                blue_mobile == somewhere_before(self@, mobile_tile(Colour::Blue), x as int, 0),
            decreases 10 - x,
        {
            let mut y: u16 = 0;
            while y < 10
                invariant
                    self@.wf(),
                    x < 10,
                    y <= 10,
                    red_flag == somewhere_before(self@, flag_tile(Colour::Red), x as int, y as int),
                    blue_flag == somewhere_before(
                        self@,
                        flag_tile(Colour::Blue),
                        x as int,
                        y as int,
                    ),
                    red_mobile == somewhere_before(
                        self@,
                        mobile_tile(Colour::Red),
                        x as int,
                        y as int,
                    ),
                    blue_mobile == somewhere_before(
                        self@,
                        mobile_tile(Colour::Blue),
                        x as int,
                        y as int,
                    ),
                decreases 10 - y,
            {
                let t = self.tile_at(Coord { x, y });
                proof {
                    lemma_before_cell(self@, flag_tile(Colour::Red), x as int, y as int);
                    lemma_before_cell(self@, flag_tile(Colour::Blue), x as int, y as int);
                    lemma_before_cell(self@, mobile_tile(Colour::Red), x as int, y as int);
                    lemma_before_cell(self@, mobile_tile(Colour::Blue), x as int, y as int);
                }
                match t {
                    Tile::Piece(k, col) => match col {
                        Colour::Red => {
                            if matches!(k, Piece::Flag) {
                                red_flag = true;
                            }
                            if !matches!(k, Piece::Bomb | Piece::Flag) {
                                red_mobile = true;
                            }
                        },
                        Colour::Blue => {
                            if matches!(k, Piece::Flag) {
                                blue_flag = true;
                            }
                            if !matches!(k, Piece::Bomb | Piece::Flag) {
                                blue_mobile = true;
                            }
                        },
                    },
                    _ => (),
                }
                y += 1;
            }
            proof {
                lemma_before_row(self@, flag_tile(Colour::Red), x as int);
                lemma_before_row(self@, flag_tile(Colour::Blue), x as int);
                lemma_before_row(self@, mobile_tile(Colour::Red), x as int);
                lemma_before_row(self@, mobile_tile(Colour::Blue), x as int);
            }
            x += 1;
        }
        proof {
            lemma_before_all(self@, flag_tile(Colour::Red));
            lemma_before_all(self@, flag_tile(Colour::Blue));
            lemma_before_all(self@, mobile_tile(Colour::Red));
            lemma_before_all(self@, mobile_tile(Colour::Blue));
        }
        if !red_flag {
            GameResult::RedLoss
        } else if !blue_flag {
            GameResult::RedWin
        } else if !red_mobile {
            GameResult::RedLoss
        } else if !blue_mobile {
            GameResult::RedWin
        } else {
            GameResult::Ongoing
        }
    }
}

} // verus!
