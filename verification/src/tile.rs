//! Tiles and their fog-of-war projection.

use vstd::prelude::*;
use vstd::string::*;
use crate::piece::{Colour, Piece};

verus! {

/// The semantic state of one board cell: impassable terrain, an empty
/// passable cell, or a piece of some kind owned by some player.
#[derive(Copy, Clone, Eq, PartialEq, Structural, Debug)]
pub enum Tile {
    Terrain,
    Empty,
    Piece(Piece, Colour),
}

/// The one-character glyph of a unit kind.
pub open spec fn glyph_char(p: Piece) -> char {
    match p {
        Piece::Bomb => 'B',
        Piece::Marshall => '1',
        Piece::General => '2',
        Piece::Colonel => '3',
        Piece::Major => '4',
        Piece::Captain => '5',
        Piece::Lieutenant => '6',
        Piece::Sergeant => '7',
        Piece::Miner => '8',
        Piece::Scout => '9',
        Piece::Spy => 'S',
        Piece::Flag => 'F',
    }
}

/// The glyph standing for terrain.
pub open spec fn terrain_char() -> char {
    '~'
}

/// The opaque glyph shown for a piece the viewer does not own.
pub open spec fn hidden_char() -> char {
    '\u{2587}'
}

/// What one tile shows to a given viewer: terrain and empty cells show
/// themselves; a piece shows its kind's glyph only to its owner and the
/// opaque glyph to anyone else.
pub open spec fn show_spec(t: Tile, viewer: Colour) -> Seq<char> {
    match t {
        Tile::Terrain => seq![terrain_char()],
        Tile::Empty => seq![' '],
        Tile::Piece(p, c) => if c == viewer {
            seq![glyph_char(p)]
        } else {
            seq![hidden_char()]
        },
    }
}

impl Piece {
    /// The display glyph of this kind.
    pub fn glyph(&self) -> (r: String)
        ensures
            r@ == seq![glyph_char(*self)],
    {
        proof {
            reveal_strlit("B");
            reveal_strlit("1");
            reveal_strlit("2");
            reveal_strlit("3");
            reveal_strlit("4");
            reveal_strlit("5");
            reveal_strlit("6");
            reveal_strlit("7");
            reveal_strlit("8");
            reveal_strlit("9");
            reveal_strlit("S");
            reveal_strlit("F");
        }
        match *self {
            Piece::Bomb => String::from_str("B"),
            Piece::Marshall => String::from_str("1"),
            Piece::General => String::from_str("2"),
            Piece::Colonel => String::from_str("3"),
            Piece::Major => String::from_str("4"),
            Piece::Captain => String::from_str("5"),
            Piece::Lieutenant => String::from_str("6"),
            Piece::Sergeant => String::from_str("7"),
            Piece::Miner => String::from_str("8"),
            Piece::Scout => String::from_str("9"),
            Piece::Spy => String::from_str("S"),
            Piece::Flag => String::from_str("F"),
        }
    }
}

impl Tile {
    /// Renders this tile as seen by `viewer`, masking pieces the viewer
    /// does not own.
    pub fn show(&self, viewer: Colour) -> (r: String)
        ensures
            r@ == show_spec(*self, viewer),
    {
        proof {
            reveal_strlit("~");
            reveal_strlit(" ");
            reveal_strlit("\u{2587}");
        }
        match *self {
            Tile::Terrain => String::from_str("~"),
            Tile::Empty => String::from_str(" "),
            Tile::Piece(p, c) => if viewer == c {
                p.glyph()
            } else {
                String::from_str("\u{2587}")
            },
        }
    }
}

/// Fog of war: a piece tile shows the opaque glyph, and never its kind's
/// glyph, to a viewer who does not own it, and always its kind's glyph to
/// its owner.
pub proof fn lemma_fog_of_war(p: Piece, owner: Colour, viewer: Colour)
    ensures
        owner != viewer ==> show_spec(Tile::Piece(p, owner), viewer) == seq![hidden_char()],
        owner != viewer ==> forall|k: Piece|
            show_spec(Tile::Piece(p, owner), viewer) != seq![#[trigger] glyph_char(k)],
        owner == viewer ==> show_spec(Tile::Piece(p, owner), viewer) == seq![glyph_char(p)],
{
    assert forall|k: Piece| seq![hidden_char()] != seq![#[trigger] glyph_char(k)] by {
        assert(seq![hidden_char()][0] == '\u{2587}');
        assert(glyph_char(k) != '\u{2587}');
    }
}

} // verus!
