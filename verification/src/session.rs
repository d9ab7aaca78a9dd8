//! The play session: cursor movement, piece selection, and the
//! confirmed move or attack, as one verified step function driven by a
//! reduced command stream.

use vstd::prelude::*;
use crate::board::{
    apply_move_spec, flip_spec, moves_spec, set_spec, Board, BoardView,
};
use crate::coord::{contains_coord, offset_spec, Coord, Move};
use crate::piece::{attack_spec, other_spec, BattleResult, Colour};
use crate::tile::Tile;

verus! {

/// One command of the interaction loop's reduced command stream: move
/// the cursor one cell, or confirm the cell under it.
#[derive(Copy, Clone, Eq, PartialEq, Structural, Debug)]
pub enum Command {
    East,
    West,
    South,
    North,
    Confirm,
}

/// The cursor translation of a command; `Confirm` moves nothing.
pub open spec fn cmd_dx(cmd: Command) -> int {
    match cmd {
        Command::East => 1,
        Command::West => -1,
        _ => 0,
    }
}

pub open spec fn cmd_dy(cmd: Command) -> int {
    match cmd {
        Command::South => 1,
        Command::North => -1,
        _ => 0,
    }
}

/// The abstract value of a play session.
#[verifier::ext_equal]
pub struct SessionView {
    pub board: BoardView,
    pub cursor: Coord,
    pub sel: Option<Coord>,
    pub highlighted: Seq<Coord>,
    pub player: Colour,
}

impl SessionView {
    pub open spec fn wf(self) -> bool {
        &&& self.board.wf()
        &&& self.cursor.wf()
        &&& (self.sel matches Option::Some(c) ==> c.wf())
    }
}

/// A play session: the board, the cursor, the selected origin with its
/// highlighted destinations, and whose turn it is.
pub struct Session {
    board: Board,
    cursor: Coord,
    sel: Option<Coord>,
    highlighted: Vec<Coord>,
    player: Colour,
}

impl View for Session {
    type V = SessionView;

    closed spec fn view(&self) -> SessionView {
        SessionView {
            board: self.board@,
            cursor: self.cursor,
            sel: self.sel,
            highlighted: self.highlighted@,
            player: self.player,
        }
    }
}

/// The session after a cursor command: the cursor moves one cell unless
/// that would leave the board.
pub open spec fn cursor_moved(s: SessionView, dx: int, dy: int) -> SessionView {
    match offset_spec(s.cursor, dx, dy) {
        Option::Some(c) => SessionView { cursor: c, ..s },
        Option::None => s,
    }
}

/// The session after a confirm with nothing selected: an enemy piece
/// under the cursor is ignored; otherwise the cell's legal destinations
/// are highlighted and the cell selected, when there are any.
pub open spec fn select_spec(s: SessionView) -> SessionView {
    let skip = s.board.tile_at_coord(s.cursor) matches Tile::Piece(_, col) && col != s.player;
    if skip {
        s
    } else {
        let dests = moves_spec(s.board, s.cursor).map_values(|m: Move| m.to);
        if dests.len() > 0 {
            SessionView { sel: Option::Some(s.cursor), highlighted: dests, ..s }
        } else {
            s
        }
    }
}

/// The board after a confirmed move from `from` onto `to`: combat is
/// resolved when both cells hold pieces (the attacker advances on
/// victory, dies on loss, and both die on a draw); onto a piece-free
/// cell the move is simply applied.
pub open spec fn act_board(b: BoardView, from: Coord, to: Coord) -> BoardView {
    match b.tile_at_coord(to) {
        Tile::Piece(p_enemy, _) => match b.tile_at_coord(from) {
            Tile::Piece(p_owned, _) => match attack_spec(p_owned, p_enemy) {
                BattleResult::Victory => apply_move_spec(b, Move { from, to }),
                BattleResult::Loss => set_spec(b, from, Tile::Empty),
                BattleResult::Draw => set_spec(set_spec(b, from, Tile::Empty), to, Tile::Empty),
            },
            _ => b,
        },
        _ => apply_move_spec(b, Move { from, to }),
    }
}

/// The session after a confirm with `selected` chosen: on a highlighted
/// cursor the move is conducted and the turn passes; either way the
/// selection and highlights are dropped.
pub open spec fn act_spec(s: SessionView, selected: Coord) -> SessionView {
    if s.highlighted.contains(s.cursor) {
        SessionView {
            board: act_board(s.board, selected, s.cursor),
            sel: Option::None,
            highlighted: Seq::empty(),
            player: other_spec(s.player),
            ..s
        }
    } else {
        SessionView { sel: Option::None, highlighted: Seq::empty(), ..s }
    }
}

/// The session after one command.
pub open spec fn step_spec(s: SessionView, cmd: Command) -> SessionView {
    match cmd {
        Command::Confirm => match s.sel {
            Option::Some(selected) => act_spec(s, selected),
            Option::None => select_spec(s),
        },
        _ => cursor_moved(s, cmd_dx(cmd), cmd_dy(cmd)),
    }
}

/// The cell where confirming now would resolve combat: a selected
/// origin, the cursor on a highlighted destination, and pieces on both
/// cells. The collaborator plays the two-phase reveal there before it
/// confirms.
pub open spec fn combat_target_spec(s: SessionView) -> Option<Coord> {
    match s.sel {
        Option::Some(selected) => if s.highlighted.contains(s.cursor) && (s.board.tile_at_coord(
            s.cursor,
        ) matches Tile::Piece(_, _)) && (s.board.tile_at_coord(selected) matches Tile::Piece(
            _,
            _,
        )) {
            Option::Some(s.cursor)
        } else {
            Option::None
        },
        Option::None => Option::None,
    }
}

impl Session {
    /// A fresh session on the given board: cursor at the bottom-left
    /// home corner, nothing selected, and the given player to act.
    pub fn new(board: Board, player: Colour) -> (s: Self)
        requires
            board@.wf(),
        ensures
            s@.board == board@,
            s@.cursor == (Coord { x: 0, y: 9 }),
            s@.sel is None,
            s@.highlighted == Seq::<Coord>::empty(),
            s@.player == player,
            s@.wf(),
    {
        let s = Session {
            board,
            cursor: Coord { x: 0, y: 9 },
            sel: None,
            highlighted: Vec::new(),
            player,
        };
        proof {
            assert(s@.highlighted =~= Seq::<Coord>::empty());
        }
        s
    }

    /// The board, for rendering.
    pub fn board(&self) -> (r: &Board)
        ensures
            r@ == self@.board,
    {
        &self.board
    }

    /// The cursor position.
    pub fn cursor(&self) -> (r: Coord)
        ensures
            r == self@.cursor,
    {
        self.cursor
    }

    /// The player whose turn it is.
    pub fn player(&self) -> (r: Colour)
        ensures
            r == self@.player,
    {
        self.player
    }

    /// The selected origin, if any.
    pub fn selection(&self) -> (r: Option<Coord>)
        ensures
            r == self@.sel,
    {
        self.sel
    }

    /// The highlighted destinations, for rendering.
    pub fn highlighted(&self) -> (r: &Vec<Coord>)
        ensures
            r@ == self@.highlighted,
    {
        &self.highlighted
    }

    /// The cell where a confirm now would resolve combat, if any.
    pub fn probe_combat(&self) -> (r: Option<Coord>)
        requires
            self@.wf(),
        ensures
            r == combat_target_spec(self@),
    {
        match self.sel {
            Some(selected) => {
                if contains_coord(&self.highlighted, self.cursor) {
                    let target_piece = match self.board.tile_at(self.cursor) {
                        Tile::Piece(_, _) => true,
                        _ => false,
                    };
                    let origin_piece = match self.board.tile_at(selected) {
                        Tile::Piece(_, _) => true,
                        _ => false,
                    };
                    if target_piece && origin_piece {
                        Some(self.cursor)
                    } else {
                        None
                    }
                } else {
                    None
                }
            },
            None => None,
        }
    }

    /// Flips the owner of the piece at `c`, for the reveal sequence; the
    /// rest of the session is untouched.
    pub fn flip_owner_at(&mut self, c: Coord)
        requires
            old(self)@.wf(),
            c.wf(),
        ensures
            final(self)@ == (SessionView { board: flip_spec(old(self)@.board, c), ..old(self)@ }),
            final(self)@.wf(),
    {
        self.board.flip_owner(c);
        proof {
            assert(self@ =~= (SessionView { board: flip_spec(old(self)@.board, c), ..old(self)@ }));
        }
    }

    /// Advances the session by one command.
    pub fn step(&mut self, cmd: Command)
        requires
            old(self)@.wf(),
        ensures
            final(self)@ == step_spec(old(self)@, cmd),
            final(self)@.wf(),
    {
        match cmd {
            Command::Confirm => {
                match self.sel {
                    Some(selected) => {
                        if contains_coord(&self.highlighted, self.cursor) {
                            let cur = self.cursor;
                            match self.board.tile_at(cur) {
                                Tile::Piece(p_enemy, _) => {
                                    match self.board.tile_at(selected) {
                                        Tile::Piece(p_owned, _) => {
                                            match p_owned.attack(p_enemy) {
                                                BattleResult::Victory => {
                                                    self.board.apply_move(Move::new(selected, cur));
                                                },
                                                BattleResult::Loss => {
                                                    self.board.set_tile(selected, Tile::Empty);
                                                },
                                                BattleResult::Draw => {
                                                    self.board.set_tile(selected, Tile::Empty);
                                                    self.board.set_tile(cur, Tile::Empty);
                                                },
                                            }
                                        },
                                        _ => (),
                                    }
                                },
                                _ => {
                                    self.board.apply_move(Move::new(selected, cur));
                                },
                            }
                            self.player = self.player.other();
                        }
                        self.sel = None;
                        self.highlighted = Vec::new();
                        proof {
                            assert(self@ =~= step_spec(old(self)@, cmd));
                        }
                    },
                    None => {
                        let skip = match self.board.tile_at(self.cursor) {
                            Tile::Piece(_, col) => {
                                let p = self.player;
                                match (col, p) {
                                    (Colour::Red, Colour::Red) => false,
                                    (Colour::Blue, Colour::Blue) => false,
                                    _ => true,
                                }
                            },
                            _ => false,
                        };
                        if !skip {
                            let moves = self.board.find_moves(self.cursor);
                            let mut coords: Vec<Coord> = Vec::new();
                            let mut i: usize = 0;
                            while i < moves.len()
                                invariant
                                    i <= moves@.len(),
                                    coords@ =~= moves@.take(i as int).map_values(|m: Move| m.to),
                                decreases moves@.len() - i,
                            {
                                coords.push(moves[i].to);
                                proof {
                                    assert(coords@ =~= moves@.take(i as int + 1).map_values(
                                        |m: Move| m.to,
                                    ));
                                }
                                i += 1;
                            }
                            proof {
                                assert(moves@.take(moves@.len() as int) =~= moves@);
                                assert(coords@ =~= moves@.map_values(|m: Move| m.to));
                            }
                            if coords.len() > 0 {
                                self.highlighted = coords;
                                self.sel = Some(self.cursor);
                            }
                        }
                        proof {
                            assert(self@ =~= step_spec(old(self)@, cmd));
                        }
                    },
                }
            },
            _ => {
                let dx: isize = match cmd {
                    Command::East => 1,
                    Command::West => -1,
                    _ => 0,
                };
                let dy: isize = match cmd {
                    Command::South => 1,
                    Command::North => -1,
                    _ => 0,
                };
                match self.cursor.offset(dx, dy) {
                    Some(c) => {
                        self.cursor = c;
                    },
                    None => (),
                }
                proof {
                    assert(self@ =~= step_spec(old(self)@, cmd));
                }
            },
        }
    }
}

} // verus!
