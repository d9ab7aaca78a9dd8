//! Army setup: the canonical forty-unit multiset, randomised placement,
//! and the interactive placement session.

use vstd::prelude::*;
use rand::seq::SliceRandom;
use crate::board::{set_spec, Board, BoardView};
use crate::coord::{offset_spec, Coord};
use crate::piece::{Colour, Piece};
use crate::tile::Tile;

verus! {

/// The canonical forty-unit army, in the order the randomiser lays it
/// out before shuffling: 6 bombs, 1 marshall, 1 general, 2 colonels,
/// 3 majors, 4 captains, 4 lieutenants, 4 sergeants, 5 miners, 8 scouts,
/// 1 spy and 1 flag.
pub open spec fn canonical_army() -> Seq<Piece> {
    seq![
        Piece::Bomb, Piece::Bomb, Piece::Bomb, Piece::Bomb, Piece::Bomb, Piece::Bomb,
        Piece::Marshall, Piece::General, Piece::Colonel, Piece::Colonel,
        Piece::Major, Piece::Major, Piece::Major,
        Piece::Captain, Piece::Captain, Piece::Captain, Piece::Captain,
        Piece::Lieutenant, Piece::Lieutenant, Piece::Lieutenant, Piece::Lieutenant,
        Piece::Sergeant, Piece::Sergeant, Piece::Sergeant, Piece::Sergeant,
        Piece::Miner, Piece::Miner, Piece::Miner, Piece::Miner, Piece::Miner,
        Piece::Scout, Piece::Scout, Piece::Scout, Piece::Scout,
        Piece::Scout, Piece::Scout, Piece::Scout, Piece::Scout,
        Piece::Spy, Piece::Flag,
    ]
}

/// The same forty units in the order the interactive setup offers them:
/// stationary kinds first, then by falling rank.
pub open spec fn placement_order() -> Seq<Piece> {
    seq![
        Piece::Flag, Piece::Bomb, Piece::Bomb, Piece::Bomb, Piece::Bomb, Piece::Bomb,
        Piece::Bomb, Piece::Marshall, Piece::General, Piece::Colonel, Piece::Colonel,
        Piece::Major, Piece::Major, Piece::Major,
        Piece::Captain, Piece::Captain, Piece::Captain, Piece::Captain,
        Piece::Lieutenant, Piece::Lieutenant, Piece::Lieutenant, Piece::Lieutenant,
        Piece::Sergeant, Piece::Sergeant, Piece::Sergeant, Piece::Sergeant,
        Piece::Miner, Piece::Miner, Piece::Miner, Piece::Miner, Piece::Miner,
        Piece::Scout, Piece::Scout, Piece::Scout, Piece::Scout,
        Piece::Scout, Piece::Scout, Piece::Scout, Piece::Scout,
        Piece::Spy,
    ]
}

/// The leftmost column of a player's four-column home region: blue holds
/// columns 0 to 3, red columns 6 to 9.
pub open spec fn home_off(player: Colour) -> int {
    if player is Red {
        6
    } else {
        0
    }
}

/// Whether `(x, y)` lies inside the player's home region.
pub open spec fn in_home(player: Colour, x: int, y: int) -> bool {
    home_off(player) <= x < home_off(player) + 4 && 0 <= y < 10
}

/// The `i`-th cell of the player's home region in fill order.
pub open spec fn home_cell(player: Colour, i: int) -> Coord {
    Coord { x: (home_off(player) + i % 4) as u16, y: (i / 4) as u16 }
}

/// The kinds standing in the player's home region, in fill order; a cell
/// holding no piece contributes a flag placeholder.
pub open spec fn region_kinds(b: BoardView, player: Colour) -> Seq<Piece> {
    Seq::new(
        40,
        |i: int|
            match b.tile_at_coord(home_cell(player, i)) {
                Tile::Piece(k, _) => k,
                _ => Piece::Flag,
            },
    )
}

/// The canonical army as a vector, in the canonical order.
pub fn canonical_vec() -> (v: Vec<Piece>)
    ensures
        v@ == canonical_army(),
{
    let mut v: Vec<Piece> = Vec::new();
    let mut i: usize = 0;
    while i < 6
        invariant
            i <= 6,
            v@ =~= canonical_army().take(i as int),
        decreases 6 - i,
    {
        v.push(Piece::Bomb);
        proof {
            assert(v@ =~= canonical_army().take(i as int + 1));
        }
        i += 1;
    }
    v.push(Piece::Marshall);
    v.push(Piece::General);
    v.push(Piece::Colonel);
    v.push(Piece::Colonel);
    v.push(Piece::Major);
    v.push(Piece::Major);
    v.push(Piece::Major);
    let mut i: usize = 13;
    while i < 17
        invariant
            13 <= i <= 17,
            v@ =~= canonical_army().take(i as int),
        decreases 17 - i,
    {
        v.push(Piece::Captain);
        proof {
            assert(v@ =~= canonical_army().take(i as int + 1));
        }
        i += 1;
    }
    let mut i: usize = 17;
    while i < 21
        invariant
            17 <= i <= 21,
            v@ =~= canonical_army().take(i as int),
        decreases 21 - i,
    {
        v.push(Piece::Lieutenant);
        proof {
            assert(v@ =~= canonical_army().take(i as int + 1));
        }
        i += 1;
    }
    let mut i: usize = 21;
    while i < 25
        invariant
            21 <= i <= 25,
            v@ =~= canonical_army().take(i as int),
        decreases 25 - i,
    {
        v.push(Piece::Sergeant);
        proof {
            assert(v@ =~= canonical_army().take(i as int + 1));
        }
        i += 1;
    }
    let mut i: usize = 25;
    while i < 30
        invariant
            25 <= i <= 30,
            v@ =~= canonical_army().take(i as int),
        decreases 30 - i,
    {
        v.push(Piece::Miner);
        proof {
            assert(v@ =~= canonical_army().take(i as int + 1));
        }
        i += 1;
    }
    let mut i: usize = 30;
    while i < 38
        invariant
            30 <= i <= 38,
            v@ =~= canonical_army().take(i as int),
        decreases 38 - i,
    {
        v.push(Piece::Scout);
        proof {
            assert(v@ =~= canonical_army().take(i as int + 1));
        }
        i += 1;
    }
    v.push(Piece::Spy);
    v.push(Piece::Flag);
    proof {
        assert(v@ =~= canonical_army());
    }
    v
}

/// Relies on rand's `SliceRandom::shuffle` with the generator from
/// `rand::rng`: an in-place permutation of the slice, picked uniformly at
/// random, so the contents are kept as a multiset and only their order
/// may change.
#[verifier::external_body]
fn shuffle_pieces(v: &mut Vec<Piece>)
    ensures
        final(v)@.to_multiset() == old(v)@.to_multiset(),
        final(v)@.len() == old(v)@.len(),
{
    v.as_mut_slice().shuffle(&mut rand::rng());
}

impl Board {
    /// Randomises the placement of the starting pieces on the given
    /// player's side: the canonical army is shuffled and laid over the
    /// forty home cells, one unit per cell. Every cell outside the home
    /// region, and the move history, are left untouched.
    pub fn randomise(&mut self, player: Colour)
        requires
            old(self)@.wf(),
        ensures
            final(self)@.wf(),
            final(self)@.history == old(self)@.history,
            forall|x: int, y: int|
                0 <= x < 10 && 0 <= y < 10 && !in_home(player, x, y)
                    ==> final(self)@.tile_of(x, y) == old(self)@.tile_of(x, y),
            forall|i: int|
                0 <= i < 40 ==> ((#[trigger] final(self)@.tile_at_coord(home_cell(player, i)))
                    matches Tile::Piece(_, owner) && owner == player),
            region_kinds(final(self)@, player).to_multiset() == canonical_army().to_multiset(),
    {
        let mut to_place = canonical_vec();
        shuffle_pieces(&mut to_place);
        let off: u16 = match player {
            Colour::Red => 6,
            Colour::Blue => 0,
        };
        let mut i: usize = 0;
        while i < 40
            invariant
                self@.wf(),
                i <= 40,
                to_place@.len() == 40,
                off as int == home_off(player),
                self@.history == old(self)@.history,
                forall|x: int, y: int|
                    0 <= x < 10 && 0 <= y < 10 && !in_home(player, x, y)
                        ==> self@.tile_of(x, y) == old(self)@.tile_of(x, y),
                forall|j: int|
                    0 <= j < i ==> #[trigger] self@.tile_at_coord(home_cell(player, j))
                        == Tile::Piece(to_place@[j], player),
            decreases 40 - i,
        {
            let x: u16 = off + (i % 4) as u16;
            let y: u16 = (i / 4) as u16;
            let piece = to_place[i];
            let ghost prev = self@;
            self.set_tile(Coord { x, y }, Tile::Piece(piece, player));
            proof {
                let ii = i as int;
                assert(home_cell(player, ii) == (Coord { x, y }));
                assert forall|j: int| 0 <= j < ii implies #[trigger] self@.tile_at_coord(
                    home_cell(player, j),
                ) == Tile::Piece(to_place@[j], player) by {
                    assert(prev.tile_at_coord(home_cell(player, j)) == Tile::Piece(
                        to_place@[j],
                        player,
                    ));
                    assert(4 * (j / 4) + j % 4 == j);
                    assert(4 * (ii / 4) + ii % 4 == ii);
                    let cj = home_cell(player, j);
                    assert(0 <= j % 4 && j % 4 < 4);
                    assert(0 <= j / 4 && j / 4 < 10);
                    assert(cj.x as int == home_off(player) + j % 4);
                    assert(cj.y as int == j / 4);
                    assert(crate::board::gidx(cj.x as int, cj.y as int) != crate::board::gidx(
                        x as int,
                        y as int,
                    ));
                }
            }
            i += 1;
        }
        proof {
            assert(region_kinds(self@, player) =~= to_place@);
        }
    }
}

/// The forty units of the interactive placement list, in offer order.
fn placement_vec() -> (v: Vec<Piece>)
    ensures
        v@ == placement_order(),
{
    let mut v = canonical_vec();
    v.pop();
    v.insert(0, Piece::Flag);
    proof {
        assert(v@ =~= placement_order());
    }
    v
}

/// One command of the interactive placement loop: move the cursor, cycle
/// the placement list, or place the next unit under the cursor.
#[derive(Copy, Clone, Eq, PartialEq, Structural, Debug)]
pub enum SetupCommand {
    East,
    West,
    South,
    North,
    Cycle,
    Place,
}

/// The cursor translation of a placement command.
pub open spec fn setup_cmd_dx(cmd: SetupCommand) -> int {
    match cmd {
        SetupCommand::East => 1,
        SetupCommand::West => -1,
        _ => 0,
    }
}

pub open spec fn setup_cmd_dy(cmd: SetupCommand) -> int {
    match cmd {
        SetupCommand::South => 1,
        SetupCommand::North => -1,
        _ => 0,
    }
}

/// The abstract value of a placement session.
#[verifier::ext_equal]
pub struct SetupView {
    pub board: BoardView,
    pub cursor: Coord,
    pub to_place: Seq<Piece>,
    pub highlighted: Seq<Coord>,
    pub player: Colour,
}

impl SetupView {
    pub open spec fn wf(self) -> bool {
        &&& self.board.wf()
        &&& self.cursor.wf()
    }
}

/// The session after the next unit is placed: on a still-highlighted
/// cursor cell the unit at the head of the list is written there, the
/// cell loses its highlight and the list its head; anywhere else nothing
/// happens.
pub open spec fn place_spec(s: SetupView) -> SetupView {
    if s.highlighted.contains(s.cursor) {
        SetupView {
            board: set_spec(s.board, s.cursor, Tile::Piece(s.to_place[0], s.player)),
            highlighted: s.highlighted.remove_value(s.cursor),
            to_place: s.to_place.drop_first(),
            ..s
        }
    } else {
        s
    }
}

/// The placement session after one command.
pub open spec fn setup_step_spec(s: SetupView, cmd: SetupCommand) -> SetupView {
    match cmd {
        SetupCommand::Cycle => SetupView {
            to_place: s.to_place.drop_first().push(s.to_place[0]),
            ..s
        },
        SetupCommand::Place => place_spec(s),
        _ => match offset_spec(s.cursor, setup_cmd_dx(cmd), setup_cmd_dy(cmd)) {
            Option::Some(c) => SetupView { cursor: c, ..s },
            Option::None => s,
        },
    }
}

/// The interactive placement session: a player fills their home region
/// by hand, one unit of the placement list at a time.
pub struct SetupSession {
    board: Board,
    cursor: Coord,
    to_place: Vec<Piece>,
    highlighted: Vec<Coord>,
    player: Colour,
}

impl View for SetupSession {
    type V = SetupView;

    closed spec fn view(&self) -> SetupView {
        SetupView {
            board: self.board@,
            cursor: self.cursor,
            to_place: self.to_place@,
            highlighted: self.highlighted@,
            player: self.player,
        }
    }
}

impl SetupSession {
    /// A fresh placement session: the full placement list, and every
    /// cell of the player's home region highlighted.
    pub fn new(board: Board, player: Colour) -> (s: Self)
        requires
            board@.wf(),
        ensures
            s@.board == board@,
            s@.cursor == (Coord { x: 0, y: 9 }),
            s@.player == player,
            s@.to_place == placement_order(),
            s@.highlighted == Seq::new(40, |i: int| home_cell(player, i)),
            s@.wf(),
    {
        let to_place = placement_vec();
        let off: u16 = match player {
            Colour::Red => 6,
            Colour::Blue => 0,
        };
        let mut highlighted: Vec<Coord> = Vec::new();
        let mut i: usize = 0;
        while i < 40
            invariant
                i <= 40,
                off as int == home_off(player),
                highlighted@ =~= Seq::new(i as nat, |j: int| home_cell(player, j)),
            decreases 40 - i,
        {
            let x: u16 = off + (i % 4) as u16;
            let y: u16 = (i / 4) as u16;
            highlighted.push(Coord { x, y });
            proof {
                assert(highlighted@ =~= Seq::new((i + 1) as nat, |j: int| home_cell(player, j)));
            }
            i += 1;
        }
        SetupSession { board, cursor: Coord { x: 0, y: 9 }, to_place, highlighted, player }
    }

    /// Whether every unit has been placed.
    pub fn done(&self) -> (r: bool)
        ensures
            r == (self@.to_place.len() == 0),
    {
        self.to_place.len() == 0
    }

    /// The unit that would be placed next.
    pub fn next_piece(&self) -> (r: Piece)
        requires
            self@.to_place.len() > 0,
        ensures
            r == self@.to_place[0],
    {
        self.to_place[0]
    }

    /// The board, for rendering.
    pub fn board(&self) -> (r: &Board)
        ensures
            r@ == self@.board,
    {
        &self.board
    }

    /// The cursor position.
    pub fn cursor(&self) -> (r: Coord)
        ensures
            r == self@.cursor,
    {
        self.cursor
    }

    /// The placing player.
    pub fn player(&self) -> (r: Colour)
        ensures
            r == self@.player,
    {
        self.player
    }

    /// The still-unfilled home cells, for rendering.
    pub fn highlighted(&self) -> (r: &Vec<Coord>)
        ensures
            r@ == self@.highlighted,
    {
        &self.highlighted
    }

    /// Hands the board back once placement is over.
    pub fn finish(self) -> (b: Board)
        ensures
            b@ == self@.board,
    {
        self.board
    }

    /// Advances the placement session by one command.
    pub fn step(&mut self, cmd: SetupCommand)
        requires
            old(self)@.wf(),
            old(self)@.to_place.len() > 0,
        ensures
            final(self)@ == setup_step_spec(old(self)@, cmd),
            final(self)@.wf(),
    {
        match cmd {
            SetupCommand::Cycle => {
                let first = self.to_place[0];
                self.to_place.remove(0);
                self.to_place.push(first);
                proof {
                    assert(self@ =~= setup_step_spec(old(self)@, cmd));
                }
            },
            SetupCommand::Place => {
                if crate::coord::contains_coord(&self.highlighted, self.cursor) {
                    let cur = self.cursor;
                    let piece = self.to_place[0];
                    self.board.set_tile(cur, Tile::Piece(piece, self.player));
                    let idx = crate::coord::first_index_of(&self.highlighted, cur);
                    self.highlighted.remove(idx);
                    self.to_place.remove(0);
                    proof {
                        old(self)@.highlighted.index_of_first_ensures(cur);
                        let i0 = old(self)@.highlighted.index_of_first(cur).unwrap();
                        assert(old(self)@.highlighted[i0] == cur);
                        assert(idx as int == i0);
                        assert(self@.highlighted =~= old(self)@.highlighted.remove_value(cur));
                        assert(self@ =~= setup_step_spec(old(self)@, cmd));
                    }
                } else {
                    proof {
                        assert(self@ =~= setup_step_spec(old(self)@, cmd));
                    }
                }
            },
            _ => {
                let dx: isize = match cmd {
                    SetupCommand::East => 1,
                    SetupCommand::West => -1,
                    _ => 0,
                };
                let dy: isize = match cmd {
                    SetupCommand::South => 1,
                    SetupCommand::North => -1,
                    _ => 0,
                };
                match self.cursor.offset(dx, dy) {
                    Option::Some(c) => {
                        self.cursor = c;
                    },
                    Option::None => (),
                }
                proof {
                    assert(self@ =~= setup_step_spec(old(self)@, cmd));
                }
            },
        }
    }
}

} // verus!
