use stratagem::board::Board;
use stratagem::piece::{Colour, Piece};
use stratagem::tile::Tile;

const ALL_KINDS: [Piece; 12] = [
    Piece::Bomb,
    Piece::Marshall,
    Piece::General,
    Piece::Colonel,
    Piece::Major,
    Piece::Captain,
    Piece::Lieutenant,
    Piece::Sergeant,
    Piece::Miner,
    Piece::Scout,
    Piece::Spy,
    Piece::Flag,
];

fn glyph_of(p: Piece) -> &'static str {
    match p {
        Piece::Bomb => "B",
        Piece::Marshall => "1",
        Piece::General => "2",
        Piece::Colonel => "3",
        Piece::Major => "4",
        Piece::Captain => "5",
        Piece::Lieutenant => "6",
        Piece::Sergeant => "7",
        Piece::Miner => "8",
        Piece::Scout => "9",
        Piece::Spy => "S",
        Piece::Flag => "F",
    }
}

#[test]
fn test_owner_sees_true_kind() {
    for k in ALL_KINDS {
        for owner in [Colour::Red, Colour::Blue] {
            let t = Tile::Piece(k, owner);
            assert_eq!(t.show(owner), glyph_of(k));
        }
    }
}

#[test]
fn test_opponent_sees_hidden_glyph() {
    for k in ALL_KINDS {
        for owner in [Colour::Red, Colour::Blue] {
            let t = Tile::Piece(k, owner);
            let shown = t.show(owner.other());
            assert_eq!(shown, "\u{2587}");
            assert_ne!(shown, glyph_of(k));
        }
    }
}

#[test]
fn test_terrain_and_empty_glyphs() {
    assert_eq!(Tile::Terrain.show(Colour::Red), "~");
    assert_eq!(Tile::Empty.show(Colour::Blue), " ");
}

#[test]
fn test_display_fresh_board() {
    let board = Board::new();
    let blank_row = format!("\u{2502}{}\u{2502}\n", " ".repeat(30));
    let terrain_row = format!(
        "\u{2502}{} ~  ~ {}\u{2502}\n",
        " ".repeat(12),
        " ".repeat(12)
    );
    let mut expected = String::new();
    expected.push_str("\u{250c}");
    expected.push_str(&"\u{2500}".repeat(30));
    expected.push_str("\u{2510}\n");
    for y in 0..10 {
        if y == 2 || y == 3 || y == 6 || y == 7 {
            expected.push_str(&terrain_row);
        } else {
            expected.push_str(&blank_row);
        }
    }
    expected.push_str("\u{2514}");
    expected.push_str(&"\u{2500}".repeat(30));
    expected.push_str("\u{2518}");

    assert_eq!(board.display_to(Colour::Red), expected);
}

#[test]
fn test_display_masks_opponent_pieces() {
    let mut board = Board::new();
    let a0 = stratagem::coord::Coord::from("a0").unwrap();
    let b0 = stratagem::coord::Coord::from("b0").unwrap();
    board.set_tile(a0, Tile::Piece(Piece::Marshall, Colour::Red));
    board.set_tile(b0, Tile::Piece(Piece::Spy, Colour::Blue));

    let red_view = board.display_to(Colour::Red);
    let blue_view = board.display_to(Colour::Blue);

    let red_first_row: &str = red_view.lines().nth(1).unwrap();
    let blue_first_row: &str = blue_view.lines().nth(1).unwrap();
    assert_eq!(
        red_first_row,
        format!("\u{2502} 1  \u{2587} {}\u{2502}", " ".repeat(24))
    );
    assert_eq!(
        blue_first_row,
        format!("\u{2502} \u{2587}  S {}\u{2502}", " ".repeat(24))
    );
}
