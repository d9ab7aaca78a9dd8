use stratagem::board::Board;
use stratagem::coord::{Coord, Move};
use stratagem::error::Error;
use stratagem::piece::{Colour, Piece};
use stratagem::rules::GameResult;
use stratagem::session::{Command, Session};
use stratagem::setup::{SetupCommand, SetupSession};
use stratagem::tile::Tile;

fn coord(s: &str) -> Coord {
    Coord::from(s).unwrap()
}

/// Walks the session cursor from its starting corner to `target`.
fn walk_to(session: &mut Session, target: Coord) {
    while session.cursor() != target {
        let c = session.cursor();
        if c.x < target.x {
            session.step(Command::East);
        } else if c.x > target.x {
            session.step(Command::West);
        } else if c.y < target.y {
            session.step(Command::South);
        } else {
            session.step(Command::North);
        }
    }
}

#[test]
fn test_session_select_and_move() {
    let mut board = Board::new();
    board.set_tile(coord("e0"), Tile::Piece(Piece::Marshall, Colour::Red));
    let mut session = Session::new(board, Colour::Red);

    walk_to(&mut session, coord("e0"));
    session.step(Command::Confirm);
    assert_eq!(session.selection(), Some(coord("e0")));
    assert_eq!(
        session.highlighted().clone(),
        vec![coord("f0"), coord("d0"), coord("e1")]
    );

    session.step(Command::South);
    assert_eq!(session.probe_combat(), None);
    session.step(Command::Confirm);

    let b = session.board();
    assert_eq!(b.tile_at(coord("e0")), Tile::Empty);
    assert_eq!(
        b.tile_at(coord("e1")),
        Tile::Piece(Piece::Marshall, Colour::Red)
    );
    assert_eq!(session.selection(), None);
    assert!(session.highlighted().is_empty());
    assert_eq!(session.player(), Colour::Blue);
}

#[test]
fn test_session_combat_victory() {
    let mut board = Board::new();
    board.set_tile(coord("e0"), Tile::Piece(Piece::Marshall, Colour::Red));
    board.set_tile(coord("e1"), Tile::Piece(Piece::Flag, Colour::Blue));
    let mut session = Session::new(board, Colour::Red);

    walk_to(&mut session, coord("e0"));
    session.step(Command::Confirm);
    session.step(Command::South);
    assert_eq!(session.probe_combat(), Some(coord("e1")));
    session.step(Command::Confirm);

    let b = session.board();
    assert_eq!(b.tile_at(coord("e0")), Tile::Empty);
    assert_eq!(
        b.tile_at(coord("e1")),
        Tile::Piece(Piece::Marshall, Colour::Red)
    );
    assert_eq!(session.player(), Colour::Blue);
}

#[test]
fn test_session_combat_loss_and_draw() {
    // Loss: a scout attacks a marshall and dies where it stood.
    let mut board = Board::new();
    board.set_tile(coord("a0"), Tile::Piece(Piece::Scout, Colour::Red));
    board.set_tile(coord("b0"), Tile::Piece(Piece::Marshall, Colour::Blue));
    let mut session = Session::new(board, Colour::Red);
    walk_to(&mut session, coord("a0"));
    session.step(Command::Confirm);
    session.step(Command::East);
    session.step(Command::Confirm);
    let b = session.board();
    assert_eq!(b.tile_at(coord("a0")), Tile::Empty);
    assert_eq!(
        b.tile_at(coord("b0")),
        Tile::Piece(Piece::Marshall, Colour::Blue)
    );

    // Draw: equal kinds clear both cells.
    let mut board = Board::new();
    board.set_tile(coord("a0"), Tile::Piece(Piece::Major, Colour::Red));
    board.set_tile(coord("b0"), Tile::Piece(Piece::Major, Colour::Blue));
    let mut session = Session::new(board, Colour::Red);
    walk_to(&mut session, coord("a0"));
    session.step(Command::Confirm);
    session.step(Command::East);
    session.step(Command::Confirm);
    let b = session.board();
    assert_eq!(b.tile_at(coord("a0")), Tile::Empty);
    assert_eq!(b.tile_at(coord("b0")), Tile::Empty);
}

#[test]
fn test_session_ignores_enemy_selection() {
    let mut board = Board::new();
    board.set_tile(coord("e0"), Tile::Piece(Piece::Marshall, Colour::Blue));
    let mut session = Session::new(board, Colour::Red);
    walk_to(&mut session, coord("e0"));
    session.step(Command::Confirm);
    assert_eq!(session.selection(), None);
    assert!(session.highlighted().is_empty());
}

#[test]
fn test_session_cursor_clamps_at_edge() {
    let board = Board::new();
    let mut session = Session::new(board, Colour::Red);
    assert_eq!(session.cursor(), Coord { x: 0, y: 9 });
    session.step(Command::West);
    assert_eq!(session.cursor(), Coord { x: 0, y: 9 });
    session.step(Command::South);
    assert_eq!(session.cursor(), Coord { x: 0, y: 9 });
    session.step(Command::North);
    assert_eq!(session.cursor(), Coord { x: 0, y: 8 });
}

#[test]
fn test_reveal_flip_restores() {
    let mut board = Board::new();
    board.set_tile(coord("c3"), Tile::Piece(Piece::Spy, Colour::Blue));
    let mut session = Session::new(board, Colour::Red);
    session.flip_owner_at(coord("c3"));
    assert_eq!(
        session.board().tile_at(coord("c3")),
        Tile::Piece(Piece::Spy, Colour::Red)
    );
    session.flip_owner_at(coord("c3"));
    assert_eq!(
        session.board().tile_at(coord("c3")),
        Tile::Piece(Piece::Spy, Colour::Blue)
    );
}

#[test]
fn test_game_end_cases() {
    // No red flag at all: red has lost.
    let board = Board::new();
    assert_eq!(board.check_game_end(), GameResult::RedLoss);

    // Both flags and mobile pieces on both sides: play goes on.
    let mut board = Board::new();
    board.set_tile(coord("a0"), Tile::Piece(Piece::Flag, Colour::Red));
    board.set_tile(coord("b0"), Tile::Piece(Piece::Scout, Colour::Red));
    board.set_tile(coord("a9"), Tile::Piece(Piece::Flag, Colour::Blue));
    board.set_tile(coord("b9"), Tile::Piece(Piece::Miner, Colour::Blue));
    assert_eq!(board.check_game_end(), GameResult::Ongoing);

    // Red keeps only its flag and a bomb: red has lost.
    let mut board = Board::new();
    board.set_tile(coord("a0"), Tile::Piece(Piece::Flag, Colour::Red));
    board.set_tile(coord("b0"), Tile::Piece(Piece::Bomb, Colour::Red));
    board.set_tile(coord("a9"), Tile::Piece(Piece::Flag, Colour::Blue));
    board.set_tile(coord("b9"), Tile::Piece(Piece::Miner, Colour::Blue));
    assert_eq!(board.check_game_end(), GameResult::RedLoss);

    // Blue lost its flag: red has won.
    let mut board = Board::new();
    board.set_tile(coord("a0"), Tile::Piece(Piece::Flag, Colour::Red));
    board.set_tile(coord("b0"), Tile::Piece(Piece::Scout, Colour::Red));
    board.set_tile(coord("b9"), Tile::Piece(Piece::Miner, Colour::Blue));
    assert_eq!(board.check_game_end(), GameResult::RedWin);

    // Blue keeps only immobile pieces: red has won.
    let mut board = Board::new();
    board.set_tile(coord("a0"), Tile::Piece(Piece::Flag, Colour::Red));
    board.set_tile(coord("b0"), Tile::Piece(Piece::Scout, Colour::Red));
    board.set_tile(coord("a9"), Tile::Piece(Piece::Flag, Colour::Blue));
    board.set_tile(coord("b9"), Tile::Piece(Piece::Bomb, Colour::Blue));
    assert_eq!(board.check_game_end(), GameResult::RedWin);
}

#[test]
fn test_setup_session_places_units() {
    let board = Board::new();
    let mut setup = SetupSession::new(board, Colour::Red);
    assert!(!setup.done());
    assert_eq!(setup.next_piece(), Piece::Flag);

    // Cycling sends the flag to the back of the list.
    setup.step(SetupCommand::Cycle);
    assert_eq!(setup.next_piece(), Piece::Bomb);

    // The cursor starts outside red's home columns; placing there is a
    // no-op.
    assert_eq!(setup.cursor(), Coord { x: 0, y: 9 });
    setup.step(SetupCommand::Place);
    assert_eq!(setup.board().tile_at(Coord { x: 0, y: 9 }), Tile::Empty);
    assert_eq!(setup.next_piece(), Piece::Bomb);

    // Walk east into the home region and place a bomb.
    for _ in 0..6 {
        setup.step(SetupCommand::East);
    }
    assert_eq!(setup.cursor(), Coord { x: 6, y: 9 });
    setup.step(SetupCommand::Place);
    assert_eq!(
        setup.board().tile_at(Coord { x: 6, y: 9 }),
        Tile::Piece(Piece::Bomb, Colour::Red)
    );

    // The same cell cannot be filled twice.
    assert_eq!(setup.next_piece(), Piece::Bomb);
    setup.step(SetupCommand::Place);
    assert_eq!(
        setup.board().tile_at(Coord { x: 6, y: 9 }),
        Tile::Piece(Piece::Bomb, Colour::Red)
    );
    assert_eq!(setup.next_piece(), Piece::Bomb);

    let board = setup.finish();
    assert_eq!(
        board.tile_at(Coord { x: 6, y: 9 }),
        Tile::Piece(Piece::Bomb, Colour::Red)
    );
}

#[test]
fn test_setup_session_completes() {
    let board = Board::new();
    let mut setup = SetupSession::new(board, Colour::Blue);
    // Fill the whole home region in scan order.
    for x in 0..4u16 {
        for y in 0..10u16 {
            walk_setup(&mut setup, Coord { x, y });
            setup.step(SetupCommand::Place);
        }
    }
    assert!(setup.done());
    let board = setup.finish();
    let mut flags = 0;
    for x in 0..4u16 {
        for y in 0..10u16 {
            match board.tile_at(Coord { x, y }) {
                Tile::Piece(k, Colour::Blue) => {
                    if k == Piece::Flag {
                        flags += 1;
                    }
                }
                other => panic!("unfilled home cell: {:?}", other),
            }
        }
    }
    assert_eq!(flags, 1);
}

fn walk_setup(setup: &mut SetupSession, target: Coord) {
    while setup.cursor() != target {
        let c = setup.cursor();
        if c.x < target.x {
            setup.step(SetupCommand::East);
        } else if c.x > target.x {
            setup.step(SetupCommand::West);
        } else if c.y < target.y {
            setup.step(SetupCommand::South);
        } else {
            setup.step(SetupCommand::North);
        }
    }
}

#[test]
fn test_error_from_io() {
    let io_err = std::io::Error::new(std::io::ErrorKind::NotFound, "terminal gone");
    let err = Error::from(io_err);
    assert!(matches!(err, Error::Io(_)));
    assert!(matches!(Error::EarlyExit, Error::EarlyExit));
}

#[test]
fn test_history_logged_through_session() {
    let mut board = Board::new();
    board.set_tile(coord("a0"), Tile::Piece(Piece::Scout, Colour::Red));
    board.apply_move(Move::new(coord("a0"), coord("a3")));
    assert_eq!(
        board.tile_at(coord("a3")),
        Tile::Piece(Piece::Scout, Colour::Red)
    );
    assert_eq!(board.tile_at(coord("a0")), Tile::Empty);
}
