//! Unit kinds, their rank values, player colours, and combat resolution.

use vstd::prelude::*;
use vstd::string::*;

verus! {

/// The twelve unit kinds.
#[derive(Copy, Clone, Eq, PartialEq, Structural, Debug)]
pub enum Piece {
    Bomb,
    Marshall,
    General,
    Colonel,
    Major,
    Captain,
    Lieutenant,
    Sergeant,
    Miner,
    Scout,
    Spy,
    Flag,
}

/// Outcome of one attack, from the attacker's point of view.
#[derive(Copy, Clone, Eq, PartialEq, Structural, Debug)]
pub enum BattleResult {
    Victory,
    Loss,
    Draw,
}

/// The two players.
#[derive(Copy, Clone, Eq, PartialEq, Structural, Debug)]
pub enum Colour {
    Red,
    Blue,
}

/// Rank value used to compare unit strength; a bomb outranks everything
/// by plain comparison.
pub open spec fn rank_spec(p: Piece) -> int {
    match p {
        Piece::Bomb => 255,
        Piece::Marshall => 10,
        Piece::General => 9,
        Piece::Colonel => 8,
        Piece::Major => 7,
        Piece::Captain => 6,
        Piece::Lieutenant => 5,
        Piece::Sergeant => 4,
        Piece::Miner => 3,
        Piece::Scout => 2,
        Piece::Spy => 1,
        Piece::Flag => 0,
    }
}

/// Combat resolution: two hard-coded exceptions, then the rank order.
pub open spec fn attack_spec(attacker: Piece, defender: Piece) -> BattleResult {
    if attacker is Miner && defender is Bomb {
        BattleResult::Victory
    } else if attacker is Spy && defender is Marshall {
        BattleResult::Victory
    } else if attacker is Marshall && defender is Spy {
        BattleResult::Loss
    } else if rank_spec(attacker) < rank_spec(defender) {
        BattleResult::Loss
    } else if rank_spec(attacker) == rank_spec(defender) {
        BattleResult::Draw
    } else {
        BattleResult::Victory
    }
}

/// A kind that may never move.
pub open spec fn immobile(p: Piece) -> bool {
    p is Bomb || p is Flag
}

impl Piece {
    /// The numeric rank of this kind.
    pub fn value(&self) -> (r: u8)
        ensures
            r as int == rank_spec(*self),
    {
        match *self {
            Piece::Bomb => u8::MAX,
            Piece::Marshall => 10,
            Piece::General => 9,
            Piece::Colonel => 8,
            Piece::Major => 7,
            Piece::Captain => 6,
            Piece::Lieutenant => 5,
            Piece::Sergeant => 4,
            Piece::Miner => 3,
            Piece::Scout => 2,
            Piece::Spy => 1,
            Piece::Flag => 0,
        }
    }

    /// Resolves an attack of `self` on `other`.
    pub fn attack(&self, other: Piece) -> (r: BattleResult)
        ensures
            r == attack_spec(*self, other),
    {
        let a = self.value();
        let d = other.value();
        if (a == 3 && d == u8::MAX) || (a == 1 && d == 10) {
            BattleResult::Victory
        } else if a == 10 && d == 1 {
            BattleResult::Loss
        } else if a < d {
            BattleResult::Loss
        } else if a == d {
            BattleResult::Draw
        } else {
            BattleResult::Victory
        }
    }
}

/// Whether two strings hold the same characters.
fn str_eq(a: &str, b: &str) -> (r: bool)
    ensures
        r == (a@ == b@),
{
    let la = a.unicode_len();
    let lb = b.unicode_len();
    if la != lb {
        return false;
    }
    let mut i: usize = 0;
    while i < la
        invariant
            i <= la,
            la == a@.len(),
            la == b@.len(),
            forall|j: int| 0 <= j < i ==> a@[j] == b@[j],
        decreases la - i,
    {
        if a.get_char(i) != b.get_char(i) {
            return false;
        }
        i += 1;
    }
    proof {
        assert(a@ =~= b@);
    }
    true
}

/// The kind named by a piece of text: a kind's full lower-case name, its
/// rank digit, or a one-letter code for the lettered kinds.
pub open spec fn piece_from_spec(t: Seq<char>) -> Option<Piece> {
    if t == "bomb"@ || t == "b"@ || t == "B"@ {
        Option::Some(Piece::Bomb)
    } else if t == "marshall"@ || t == "1"@ {
        Option::Some(Piece::Marshall)
    } else if t == "general"@ || t == "2"@ {
        Option::Some(Piece::General)
    } else if t == "colonel"@ || t == "3"@ {
        Option::Some(Piece::Colonel)
    } else if t == "major"@ || t == "4"@ {
        Option::Some(Piece::Major)
    } else if t == "captain"@ || t == "5"@ {
        Option::Some(Piece::Captain)
    } else if t == "lieutenant"@ || t == "6"@ {
        Option::Some(Piece::Lieutenant)
    } else if t == "sergeant"@ || t == "7"@ {
        Option::Some(Piece::Sergeant)
    } else if t == "miner"@ || t == "8"@ {
        Option::Some(Piece::Miner)
    } else if t == "scout"@ || t == "9"@ {
        Option::Some(Piece::Scout)
    } else if t == "spy"@ || t == "s"@ || t == "S"@ {
        Option::Some(Piece::Spy)
    } else if t == "flag"@ || t == "f"@ || t == "F"@ {
        Option::Some(Piece::Flag)
    } else {
        Option::None
    }
}

impl Piece {
    /// Parses a kind from its name, rank digit or one-letter code.
    pub fn from(s: &str) -> (r: Option<Piece>)
        ensures
            r == piece_from_spec(s@),
    {
        if str_eq(s, "bomb") || str_eq(s, "b") || str_eq(s, "B") {
            Some(Piece::Bomb)
        } else if str_eq(s, "marshall") || str_eq(s, "1") {
            Some(Piece::Marshall)
        } else if str_eq(s, "general") || str_eq(s, "2") {
            Some(Piece::General)
        } else if str_eq(s, "colonel") || str_eq(s, "3") {
            Some(Piece::Colonel)
        } else if str_eq(s, "major") || str_eq(s, "4") {
            Some(Piece::Major)
        } else if str_eq(s, "captain") || str_eq(s, "5") {
            Some(Piece::Captain)
        } else if str_eq(s, "lieutenant") || str_eq(s, "6") {
            Some(Piece::Lieutenant)
        } else if str_eq(s, "sergeant") || str_eq(s, "7") {
            Some(Piece::Sergeant)
        } else if str_eq(s, "miner") || str_eq(s, "8") {
            Some(Piece::Miner)
        } else if str_eq(s, "scout") || str_eq(s, "9") {
            Some(Piece::Scout)
        } else if str_eq(s, "spy") || str_eq(s, "s") || str_eq(s, "S") {
            Some(Piece::Spy)
        } else if str_eq(s, "flag") || str_eq(s, "f") || str_eq(s, "F") {
            Some(Piece::Flag)
        } else {
            None
        }
    }
}

impl Colour {
    /// The opposing colour.
    pub fn other(&self) -> (r: Self)
        ensures
            r == other_spec(*self),
    {
        match *self {
            Colour::Red => Colour::Blue,
            Colour::Blue => Colour::Red,
        }
    }
}

pub open spec fn other_spec(c: Colour) -> Colour {
    match c {
        Colour::Red => Colour::Blue,
        Colour::Blue => Colour::Red,
    }
}

/// An attacker always draws against its own kind: the exceptions pair two
/// distinct kinds, so only the rank comparison applies, and equal kinds
/// have equal ranks.
pub proof fn lemma_same_kind_draw(p: Piece)
    ensures
        attack_spec(p, p) == BattleResult::Draw,
{
}

} // verus!
