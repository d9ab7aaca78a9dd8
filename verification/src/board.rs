//! The board: a fixed 10 x 10 grid of tiles, an append-only move log, and
//! legal-move generation.

use vstd::prelude::*;
use crate::coord::{offset_spec, Coord, Move};
use crate::piece::{immobile, other_spec, Colour, Piece};
use crate::tile::Tile;

verus! {

/// The abstract value of a board: the hundred cells of the flattened grid
/// and the move history.
#[verifier::ext_equal]
pub struct BoardView {
    pub grid: Seq<Tile>,
    pub history: Seq<Move>,
}

/// Index of the cell `(x, y)` in the flattened grid.
pub open spec fn gidx(x: int, y: int) -> int {
    10 * x + y
}

/// Cells of the two fixed 2 x 2 no-man's-land terrain blocks.
pub open spec fn is_terrain_cell(x: int, y: int) -> bool {
    (x == 4 || x == 5) && (y == 2 || y == 3 || y == 6 || y == 7)
}

/// The tile a freshly constructed board holds at `(x, y)`.
pub open spec fn init_tile(x: int, y: int) -> Tile {
    if is_terrain_cell(x, y) {
        Tile::Terrain
    } else {
        Tile::Empty
    }
}

impl BoardView {
    pub open spec fn wf(self) -> bool {
        self.grid.len() == 100
    }

    pub open spec fn tile_of(self, x: int, y: int) -> Tile {
        self.grid[gidx(x, y)]
    }

    pub open spec fn tile_at_coord(self, c: Coord) -> Tile {
        self.tile_of(c.x as int, c.y as int)
    }
}

/// The board after one tile is overwritten.
pub open spec fn set_spec(b: BoardView, c: Coord, t: Tile) -> BoardView {
    BoardView { grid: b.grid.update(gidx(c.x as int, c.y as int), t), history: b.history }
}

/// The board after a move is applied: the tile at `from` relocates to
/// `to`, `from` is cleared, and the move is logged.
pub open spec fn apply_move_spec(b: BoardView, m: Move) -> BoardView {
    BoardView {
        grid: b.grid.update(gidx(m.to.x as int, m.to.y as int), b.tile_at_coord(m.from)).update(
            gidx(m.from.x as int, m.from.y as int),
            Tile::Empty,
        ),
        history: b.history.push(m),
    }
}

/// The board after the owner of the piece at `c`, if any, is flipped to
/// the opposing colour.
pub open spec fn flip_spec(b: BoardView, c: Coord) -> BoardView {
    match b.tile_at_coord(c) {
        Tile::Piece(p, col) => set_spec(b, c, Tile::Piece(p, other_spec(col))),
        _ => b,
    }
}

/// A 10 x 10 grid of tiles plus an append-only move log.
pub struct Board {
    grid: Vec<Tile>,
    moves: Vec<Move>,
}

impl View for Board {
    type V = BoardView;

    closed spec fn view(&self) -> BoardView {
        BoardView { grid: self.grid@, history: self.moves@ }
    }
}

impl Board {
    /// A fresh board: all cells empty except the two fixed terrain blocks,
    /// and no history.
    pub fn new() -> (b: Self)
        ensures
            b@.wf(),
            b@.history == Seq::<Move>::empty(),
            forall|x: int, y: int|
                0 <= x < 10 && 0 <= y < 10 ==> #[trigger] b@.tile_of(x, y) == init_tile(x, y),
    {
        let mut grid: Vec<Tile> = Vec::new();
        let mut x: usize = 0;
        while x < 10
            invariant
                x <= 10,
                grid@.len() == 10 * x,
                forall|a: int, b0: int|
                    0 <= a < x && 0 <= b0 < 10 ==> #[trigger] grid@[gidx(a, b0)] == init_tile(a, b0),
            decreases 10 - x,
        {
            let mut y: usize = 0;
            while y < 10
                invariant
                    x < 10,
                    y <= 10,
                    grid@.len() == 10 * x + y,
                    forall|a: int, b0: int|
                        0 <= a < x && 0 <= b0 < 10 ==> #[trigger] grid@[gidx(a, b0)] == init_tile(
                            a,
                            b0,
                        ),
                    forall|b0: int|
                        0 <= b0 < y ==> #[trigger] grid@[gidx(x as int, b0)] == init_tile(
                            x as int,
                            b0,
                        ),
                decreases 10 - y,
            {
                let t = if (x == 4 || x == 5) && (y == 2 || y == 3 || y == 6 || y == 7) {
                    Tile::Terrain
                } else {
                    Tile::Empty
                };
                grid.push(t);
                y += 1;
            }
            x += 1;
        }
        Board { grid, moves: Vec::new() }
    }

    /// The tile at a well-formed coordinate.
    pub fn tile_at(&self, c: Coord) -> (t: Tile)
        requires
            self@.wf(),
            c.wf(),
        ensures
            t == self@.tile_at_coord(c),
    {
        self.grid[(c.x as usize) * 10 + (c.y as usize)]
    }

    /// Overwrites the tile at a well-formed coordinate.
    pub fn set_tile(&mut self, c: Coord, t: Tile)
        requires
            old(self)@.wf(),
            c.wf(),
        ensures
            final(self)@ == set_spec(old(self)@, c, t),
            final(self)@.wf(),
    {
        self.grid.set((c.x as usize) * 10 + (c.y as usize), t);
        proof {
            assert(self@ =~= set_spec(old(self)@, c, t));
        }
    }

    /// Mutates the game state with the provided move, logging it.
    ///
    /// There is no legality checking here; `find_moves` presents the legal
    /// moves before the state is mutated.
    pub fn apply_move(&mut self, m: Move)
        requires
            old(self)@.wf(),
            m.from.wf(),
            m.to.wf(),
        ensures
            final(self)@ == apply_move_spec(old(self)@, m),
            final(self)@.wf(),
    {
        let t = self.tile_at(m.from);
        self.set_tile(m.to, t);
        self.set_tile(m.from, Tile::Empty);
        self.moves.push(m);
        proof {
            assert(self@ =~= apply_move_spec(old(self)@, m));
        }
    }

    /// Flips the owner of the piece at `c`, if a piece stands there, to
    /// the opposing colour; used by the two-phase reveal sequence.
    pub fn flip_owner(&mut self, c: Coord)
        requires
            old(self)@.wf(),
            c.wf(),
        ensures
            final(self)@ == flip_spec(old(self)@, c),
            final(self)@.wf(),
    {
        match self.tile_at(c) {
            Tile::Piece(p, col) => {
                let t = Tile::Piece(p, col.other());
                self.set_tile(c, t);
            },
            _ => (),
        }
    }
}

/// Flipping the owner at the same cell twice restores the board: the
/// reveal sequence always returns the true owner once both phases ran.
pub proof fn lemma_flip_twice_restores(b: BoardView, c: Coord)
    requires
        b.wf(),
        c.wf(),
    ensures
        flip_spec(flip_spec(b, c), c) == b,
{
    let i = gidx(c.x as int, c.y as int);
    match b.tile_at_coord(c) {
        Tile::Piece(p, col) => {
            assert(flip_spec(flip_spec(b, c), c).grid =~= b.grid);
            assert(flip_spec(flip_spec(b, c), c) =~= b);
        },
        _ => (),
    }
}

/// The x component of scan direction `d`; the fixed order is east, west,
/// south, north.
pub open spec fn dir_dx(d: int) -> int {
    if d == 0 {
        1
    } else if d == 1 {
        -1
    } else {
        0
    }
}

/// The y component of scan direction `d`.
pub open spec fn dir_dy(d: int) -> int {
    if d == 2 {
        1
    } else if d == 3 {
        -1
    } else {
        0
    }
}

/// The moves of a single-step unit of colour `own` at `c` in direction
/// `d`: one move onto an adjacent empty or enemy-held cell.
pub open spec fn step_moves(b: BoardView, own: Colour, c: Coord, d: int) -> Seq<Move> {
    match offset_spec(c, dir_dx(d), dir_dy(d)) {
        Option::None => Seq::empty(),
        Option::Some(n) => match b.tile_at_coord(n) {
            Tile::Terrain => Seq::empty(),
            Tile::Empty => seq![Move { from: c, to: n }],
            Tile::Piece(_, col) => if col != own {
                seq![Move { from: c, to: n }]
            } else {
                Seq::empty()
            },
        },
    }
}

/// The moves of a sliding unit of colour `own` at `c` in direction `d`,
/// scanning outward from multiple `k` of the direction vector: every
/// empty cell on the way is a destination, an enemy-held cell is one
/// final destination, and terrain, an allied piece or the board edge ends
/// the scan.
pub open spec fn ray_moves(b: BoardView, own: Colour, c: Coord, d: int, k: int) -> Seq<Move>
    decreases 12 - k,
{
    if k > 11 {
        Seq::empty()
    } else {
        match offset_spec(c, k * dir_dx(d), k * dir_dy(d)) {
            Option::None => Seq::empty(),
            Option::Some(n) => match b.tile_at_coord(n) {
                Tile::Terrain => Seq::empty(),
                Tile::Piece(_, col) => if col != own {
                    seq![Move { from: c, to: n }]
                } else {
                    Seq::empty()
                },
                Tile::Empty => seq![Move { from: c, to: n }] + ray_moves(b, own, c, d, k + 1),
            },
        }
    }
}

/// The moves of the first `n` scan directions, concatenated in the fixed
/// order.
pub open spec fn dirs_moves(b: BoardView, own: Colour, c: Coord, sliding: bool, n: int) -> Seq<
    Move,
>
    decreases n,
{
    if n <= 0 {
        Seq::empty()
    } else {
        dirs_moves(b, own, c, sliding, n - 1) + if sliding {
            ray_moves(b, own, c, n - 1, 1)
        } else {
            step_moves(b, own, c, n - 1)
        }
    }
}

/// All legal moves from `c`: none from an empty or terrain cell or for an
/// immobile kind, sliding scans for a scout, single steps otherwise.
pub open spec fn moves_spec(b: BoardView, c: Coord) -> Seq<Move> {
    match b.tile_at_coord(c) {
        Tile::Piece(k, own) => if immobile(k) {
            Seq::empty()
        } else {
            dirs_moves(b, own, c, k is Scout, 4)
        },
        _ => Seq::empty(),
    }
}

/// A bomb or flag has no legal move, whatever the rest of the board
/// holds.
pub proof fn lemma_immobile_no_moves(b: BoardView, c: Coord)
    requires
        b.tile_at_coord(c) matches Tile::Piece(k, _) && immobile(k),
    ensures
        moves_spec(b, c) == Seq::<Move>::empty(),
{
}

impl Board {
    /// Finds all legal moves available from the coordinate, in the fixed
    /// scan order east, west, south, north, nearest destination first.
    pub fn find_moves(&self, c: Coord) -> (r: Vec<Move>)
        requires
            self@.wf(),
            c.wf(),
        ensures
            r@ == moves_spec(self@, c),
    {
        let mut mvs: Vec<Move> = Vec::new();
        let (curr_piece, curr_col) = match self.tile_at(c) {
            Tile::Piece(p, col) => (p, col),
            _ => {
                proof {
                    assert(mvs@ =~= moves_spec(self@, c));
                }
                return mvs;
            },
        };
        if matches!(curr_piece, Piece::Bomb | Piece::Flag) {
            proof {
                assert(mvs@ =~= moves_spec(self@, c));
            }
            return mvs;
        }
        let sliding = matches!(curr_piece, Piece::Scout);
        let mut d: usize = 0;
        while d < 4
            invariant
                self@.wf(),
                c.wf(),
                d <= 4,
                mvs@ == dirs_moves(self@, curr_col, c, sliding, d as int),
            decreases 4 - d,
        {
            let dx: isize = if d == 0 {
                1
            } else if d == 1 {
                -1
            } else {
                0
            };
            let dy: isize = if d == 2 {
                1
            } else if d == 3 {
                -1
            } else {
                0
            };
            if sliding {
                let ghost pre = mvs@;
                let mut mult: isize = 1;
                loop
                    invariant_except_break
                        self@.wf(),
                        c.wf(),
                        d < 4,
                        dx as int == dir_dx(d as int),
                        dy as int == dir_dy(d as int),
                        1 <= mult <= 12,
                        pre + ray_moves(self@, curr_col, c, d as int, 1) == mvs@ + ray_moves(
                            self@,
                            curr_col,
                            c,
                            d as int,
                            mult as int,
                        ),
                    ensures
                        mvs@ == pre + ray_moves(self@, curr_col, c, d as int, 1),
                    decreases 12 - mult,
                {
                    let ox: isize = if dx == 1 {
                        mult
                    } else if dx == -1 {
                        -mult
                    } else {
                        0
                    };
                    let oy: isize = if dy == 1 {
                        mult
                    } else if dy == -1 {
                        -mult
                    } else {
                        0
                    };
                    proof {
                        assert(ox as int == (mult as int) * dir_dx(d as int));
                        assert(oy as int == (mult as int) * dir_dy(d as int));
                    }
                    match c.offset(ox, oy) {
                        Option::None => {
                            proof {
                                assert(mvs@ + ray_moves(self@, curr_col, c, d as int, mult as int)
                                    =~= mvs@);
                            }
                            break ;
                        },
                        Option::Some(next_c) => {
                            match self.tile_at(next_c) {
                                Tile::Terrain => {
                                    proof {
                                        assert(mvs@ + ray_moves(
                                            self@,
                                            curr_col,
                                            c,
                                            d as int,
                                            mult as int,
                                        ) =~= mvs@);
                                    }
                                    break ;
                                },
                                Tile::Piece(_, next_col) => {
                                    if next_col != curr_col {
                                        mvs.push(Move::new(c, next_c));
                                    }
                                    proof {
                                        assert((mult as int) <= 9);
                                        assert(mvs@ =~= pre + ray_moves(
                                            self@,
                                            curr_col,
                                            c,
                                            d as int,
                                            1,
                                        ));
                                    }
                                    break ;
                                },
                                Tile::Empty => {
                                    mvs.push(Move::new(c, next_c));
                                    proof {
                                        assert(pre + ray_moves(self@, curr_col, c, d as int, 1)
                                            =~= mvs@ + ray_moves(
                                            self@,
                                            curr_col,
                                            c,
                                            d as int,
                                            mult as int + 1,
                                        ));
                                    }
                                    mult = mult + 1;
                                },
                            }
                        },
                    }
                }
                proof {
                    assert(mvs@ =~= dirs_moves(self@, curr_col, c, sliding, d as int + 1));
                }
            } else {
                match c.offset(dx, dy) {
                    Option::Some(next_c) => {
                        match self.tile_at(next_c) {
                            Tile::Piece(_, next_col) => {
                                if next_col != curr_col {
                                    mvs.push(Move::new(c, next_c));
                                }
                            },
                            Tile::Empty => {
                                mvs.push(Move::new(c, next_c));
                            },
                            Tile::Terrain => (),
                        }
                    },
                    Option::None => (),
                }
                proof {
                    assert(mvs@ =~= dirs_moves(self@, curr_col, c, sliding, d as int + 1));
                }
            }
            d += 1;
        }
        proof {
            assert(mvs@ == moves_spec(self@, c));
        }
        mvs
    }
}

} // verus!
