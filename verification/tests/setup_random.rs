use stratagem::board::Board;
use stratagem::coord::Coord;
use stratagem::piece::{Colour, Piece};
use stratagem::tile::Tile;

fn kind_index(p: Piece) -> usize {
    match p {
        Piece::Bomb => 0,
        Piece::Marshall => 1,
        Piece::General => 2,
        Piece::Colonel => 3,
        Piece::Major => 4,
        Piece::Captain => 5,
        Piece::Lieutenant => 6,
        Piece::Sergeant => 7,
        Piece::Miner => 8,
        Piece::Scout => 9,
        Piece::Spy => 10,
        Piece::Flag => 11,
    }
}

const CANONICAL_COUNTS: [usize; 12] = [6, 1, 1, 2, 3, 4, 4, 4, 5, 8, 1, 1];

fn region_counts(board: &Board, player: Colour) -> [usize; 12] {
    let off: u16 = match player {
        Colour::Red => 6,
        Colour::Blue => 0,
    };
    let mut counts = [0usize; 12];
    for x in off..off + 4 {
        for y in 0..10u16 {
            match board.tile_at(Coord { x, y }) {
                Tile::Piece(k, owner) => {
                    assert_eq!(owner, player);
                    counts[kind_index(k)] += 1;
                }
                other => panic!("home cell left unfilled: {:?}", other),
            }
        }
    }
    counts
}

#[test]
fn test_randomise_fills_canonical_multiset() {
    for trial in 0..1000 {
        let mut board = Board::new();
        board.randomise(Colour::Blue);
        let counts = region_counts(&board, Colour::Blue);
        assert_eq!(counts, CANONICAL_COUNTS, "trial {}", trial);
    }
}

#[test]
fn test_randomise_red_side() {
    let mut board = Board::new();
    board.randomise(Colour::Red);
    assert_eq!(region_counts(&board, Colour::Red), CANONICAL_COUNTS);
}

#[test]
fn test_randomise_leaves_rest_of_board() {
    let mut board = Board::new();
    board.randomise(Colour::Blue);
    // The other side and the middle columns are untouched, terrain included.
    for x in 4..10u16 {
        for y in 0..10u16 {
            let expected = if (x == 4 || x == 5) && (y == 2 || y == 3 || y == 6 || y == 7) {
                Tile::Terrain
            } else {
                Tile::Empty
            };
            assert_eq!(board.tile_at(Coord { x, y }), expected);
        }
    }
}

#[test]
fn test_randomise_both_sides() {
    let mut board = Board::new();
    board.randomise(Colour::Blue);
    board.randomise(Colour::Red);
    assert_eq!(region_counts(&board, Colour::Blue), CANONICAL_COUNTS);
    assert_eq!(region_counts(&board, Colour::Red), CANONICAL_COUNTS);
}
