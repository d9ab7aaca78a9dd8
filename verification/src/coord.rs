//! Board coordinates, their two-character text form, and moves.

use vstd::prelude::*;
use vstd::string::*;

verus! {

/// A board position; both components lie in `[0, 9]` when well-formed.
#[derive(Copy, Clone, Eq, PartialEq, Structural, Debug)]
pub struct Coord {
    pub x: u16,
    pub y: u16,
}

/// An ordered `(from, to)` pair of coordinates.
#[derive(Eq, PartialEq, Structural, Debug)]
pub struct Move {
    pub from: Coord,
    pub to: Coord,
}

impl Move {
    pub fn new(f: Coord, t: Coord) -> (r: Self)
        ensures
            r.from == f,
            r.to == t,
    {
        Move { from: f, to: t }
    }
}

impl Coord {
    /// Both components lie on the board.
    pub open spec fn wf(&self) -> bool {
        self.x <= 9 && self.y <= 9
    }
}

/// The canonical text form: a column letter in `a..j`, then a row digit.
pub open spec fn parse_spec(t: Seq<char>) -> Option<Coord> {
    if t.len() != 2 {
        None
    } else {
        let cv = t[0] as u32;
        let dv = t[1] as u32;
        if cv < 97 || cv > 106 || dv < 48 || dv > 57 {
            None
        } else {
            Some(Coord { x: (cv - 97) as u16, y: (dv - 48) as u16 })
        }
    }
}

/// The column letter of a column index.
pub open spec fn col_char(x: int) -> char {
    if x == 0 { 'a' }
    else if x == 1 { 'b' }
    else if x == 2 { 'c' }
    else if x == 3 { 'd' }
    else if x == 4 { 'e' }
    else if x == 5 { 'f' }
    else if x == 6 { 'g' }
    else if x == 7 { 'h' }
    else if x == 8 { 'i' }
    else { 'j' }
}

/// The row digit of a row index.
pub open spec fn row_char(y: int) -> char {
    if y == 0 { '0' }
    else if y == 1 { '1' }
    else if y == 2 { '2' }
    else if y == 3 { '3' }
    else if y == 4 { '4' }
    else if y == 5 { '5' }
    else if y == 6 { '6' }
    else if y == 7 { '7' }
    else if y == 8 { '8' }
    else { '9' }
}

/// The canonical text encoding of a coordinate.
pub open spec fn format_spec(c: Coord) -> Seq<char> {
    seq![col_char(c.x as int), row_char(c.y as int)]
}

fn col_str(x: u16) -> (r: &'static str)
    requires
        x <= 9,
    ensures
        r@ == seq![col_char(x as int)],
{
    proof {
        reveal_strlit("a");
        reveal_strlit("b");
        reveal_strlit("c");
        reveal_strlit("d");
        reveal_strlit("e");
        reveal_strlit("f");
        reveal_strlit("g");
        reveal_strlit("h");
        reveal_strlit("i");
        reveal_strlit("j");
    }
    match x {
        0 => "a",
        1 => "b",
        2 => "c",
        3 => "d",
        4 => "e",
        5 => "f",
        6 => "g",
        7 => "h",
        8 => "i",
        _ => "j",
    }
}

fn row_str(y: u16) -> (r: &'static str)
    requires
        y <= 9,
    ensures
        r@ == seq![row_char(y as int)],
{
    proof {
        reveal_strlit("0");
        reveal_strlit("1");
        reveal_strlit("2");
        reveal_strlit("3");
        reveal_strlit("4");
        reveal_strlit("5");
        reveal_strlit("6");
        reveal_strlit("7");
        reveal_strlit("8");
        reveal_strlit("9");
    }
    match y {
        0 => "0",
        1 => "1",
        2 => "2",
        3 => "3",
        4 => "4",
        5 => "5",
        6 => "6",
        7 => "7",
        8 => "8",
        _ => "9",
    }
}

impl Coord {
    /// Parses the canonical two-character form; fails on any other text.
    pub fn from(s: &str) -> (r: Option<Self>)
        ensures
            r == parse_spec(s@),
    {
        if s.unicode_len() != 2 {
            None
        } else {
            let cx = s.get_char(0);
            let cy = s.get_char(1);
            let cv = cx as u32;
            let dv = cy as u32;
            if cv < 97 || cv > 106 || dv < 48 || dv > 57 {
                None
            } else {
                Some(Coord { x: (cv - 97) as u16, y: (dv - 48) as u16 })
            }
        }
    }

    /// The canonical text form of this coordinate.
    pub fn text(&self) -> (r: String)
        requires
            self.wf(),
        ensures
            r@ == format_spec(*self),
    {
        let mut s = String::from_str(col_str(self.x));
        s.append(row_str(self.y));
        proof {
            assert(s@ =~= format_spec(*self));
        }
        s
    }

    /// The coordinate translated by `(x, y)`, if still on the board.
    pub fn offset(&self, x: isize, y: isize) -> (r: Option<Self>)
        requires
            self.wf(),
        ensures
            r == offset_spec(*self, x as int, y as int),
    {
        if x < -9 || x > 9 || y < -9 || y > 9 {
            return None;
        }
        let mx = self.x as isize + x;
        let my = self.y as isize + y;
        if mx < 0 || my < 0 || mx > 9 || my > 9 {
            None
        } else {
            Some(Coord { x: mx as u16, y: my as u16 })
        }
    }
}

/// The translation of `c` by `(dx, dy)`, or nothing if it leaves the board.
pub open spec fn offset_spec(c: Coord, dx: int, dy: int) -> Option<Coord> {
    let nx = c.x + dx;
    let ny = c.y + dy;
    if nx < 0 || ny < 0 || nx > 9 || ny > 9 {
        None
    } else {
        Some(Coord { x: nx as u16, y: ny as u16 })
    }
}

/// Whether a vector of coordinates holds `c`.
pub fn contains_coord(v: &Vec<Coord>, c: Coord) -> (r: bool)
    ensures
        r == v@.contains(c),
{
    let mut i: usize = 0;
    while i < v.len()
        invariant
            i <= v@.len(),
            forall|j: int| 0 <= j < i ==> v@[j] != c,
        decreases v@.len() - i,
    {
        if v[i] == c {
            return true;
        }
        i += 1;
    }
    proof {
        if v@.contains(c) {
            let j = choose|j: int| 0 <= j < v@.len() && v@[j] == c;
        }
    }
    false
}

/// The index of the first occurrence of `c` in a vector known to hold it.
pub fn first_index_of(v: &Vec<Coord>, c: Coord) -> (i: usize)
    requires
        v@.contains(c),
    ensures
        i < v@.len(),
        v@[i as int] == c,
        forall|j: int| 0 <= j < i ==> v@[j] != c,
{
    let mut i: usize = 0;
    while i < v.len() && v[i] != c
        invariant
            i <= v@.len(),
            forall|j: int| 0 <= j < i ==> v@[j] != c,
        decreases v@.len() - i,
    {
        i += 1;
    }
    proof {
        if i == v@.len() {
            let j = choose|j: int| 0 <= j < v@.len() && v@[j] == c;
        }
    }
    i
}

/// Round trip of the canonical text encoding: every well-formed coordinate
/// parses back from its own text form.
pub proof fn lemma_parse_format_roundtrip(c: Coord)
    requires
        c.wf(),
    ensures
        parse_spec(format_spec(c)) == Some(c),
{
}

/// Parsing fails for any text that is not two characters, or whose
/// characters fall outside the column and row ranges.
pub proof fn lemma_parse_rejects(t: Seq<char>)
    requires
        t.len() != 2
            || (t[0] as u32) < 97 || (t[0] as u32) > 106
            || (t[1] as u32) < 48 || (t[1] as u32) > 57,
    ensures
        parse_spec(t) is None,
{
}

} // verus!
