use vstd::prelude::*;

verus! {

/// The result of a game between two sides, seen from the first of them.
#[derive(Clone, Copy, Debug, PartialEq, Eq, Structural)]
pub enum Outcome {
    /// The first side won the game.
    Win,
    /// The first side lost the game.
    Loss,
    /// Neither side won.
    Draw,
}

/// What a side ranked `rank` achieved against a side ranked `other`: a lower
/// rank number places better, and equal rank numbers tie.
pub open spec fn outcome_of(rank: int, other: int) -> Outcome {
    if rank < other {
        Outcome::Win
    } else if rank == other {
        Outcome::Draw
    } else {
        Outcome::Loss
    }
}

impl Outcome {
    /// Points scored, in half points: a win is worth one point, a draw half
    /// of one, a loss nothing.
    pub open spec fn spec_half_points(self) -> u8 {
        match self {
            Outcome::Win => 2,
            Outcome::Draw => 1,
            Outcome::Loss => 0,
        }
    }

    /// The same result seen from the other side.
    pub open spec fn opposite(self) -> Outcome {
        match self {
            Outcome::Win => Outcome::Loss,
            Outcome::Loss => Outcome::Win,
            Outcome::Draw => Outcome::Draw,
        }
    }

    /// The ranks that a duel with this outcome submits for the first and the
    /// second player.
    pub open spec fn spec_duel_ranks(self) -> Seq<usize> {
        match self {
            Outcome::Win => seq![1, 2],
            Outcome::Loss => seq![2, 1],
            Outcome::Draw => seq![1, 1],
        }
    }

    /// The result of a side ranked `rank` against a side ranked `other`.
    pub fn from_ranks(rank: usize, other: usize) -> (r: Outcome)
        ensures
            r == outcome_of(rank as int, other as int),
    {
        if rank < other {
            Outcome::Win
        } else if rank == other {
            Outcome::Draw
        } else {
            Outcome::Loss
        }
    }

    /// The score of this result in half points (two for a win, one for a
    /// draw, none for a loss).
    pub fn half_points(self) -> (r: u8)
        ensures
            r == self.spec_half_points(),
    {
        match self {
            Outcome::Win => 2,
            Outcome::Draw => 1,
            Outcome::Loss => 0,
        }
    }

    /// The ranks of the first and the second player in a duel that ended
    /// with this outcome.
    pub fn duel_ranks(self) -> (r: [usize; 2])
        ensures
            r@ == self.spec_duel_ranks(),
    {
        match self {
            Outcome::Win => [1, 2],
            Outcome::Loss => [2, 1],
            Outcome::Draw => [1, 1],
        }
    }
}

/// A duel is a game of two one-player teams: the ranks it submits give back
/// its outcome for the first player, and the opposite one for the second.
pub proof fn lemma_duel_ranks_reproduce_outcome(o: Outcome)
    ensures
        outcome_of(o.spec_duel_ranks()[0] as int, o.spec_duel_ranks()[1] as int) == o,
        outcome_of(o.spec_duel_ranks()[1] as int, o.spec_duel_ranks()[0] as int) == o.opposite(),
{
}

/// The two sides of a pairing see opposite results and share one point
/// between them.
pub proof fn lemma_pairing_shares_one_point(rank: int, other: int)
    ensures
        outcome_of(other, rank) == outcome_of(rank, other).opposite(),
        outcome_of(rank, other).spec_half_points() + outcome_of(other, rank).spec_half_points()
            == 2,
{
}

} // verus!
