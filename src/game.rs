use vstd::prelude::*;

use crate::error::BBTError;
use crate::outcome::{outcome_of, Outcome};

verus! {

/// Whether some team of a game, given by its number of players, is empty.
pub open spec fn has_empty_team(team_sizes: Seq<usize>) -> bool {
    exists|i: int| 0 <= i < team_sizes.len() && team_sizes[i] == 0
}

/// Checks a game submission of teams with `team_sizes` players each, ranked
/// by `ranks`, before any rating is touched. The lengths are checked first,
/// then that no team is empty.
pub fn check_submission(team_sizes: &[usize], ranks: &[usize]) -> (r: Result<(), BBTError>)
    ensures
        team_sizes@.len() != ranks@.len() ==> r == Err::<(), BBTError>(
            BBTError::MismatchedLengths,
        ),
        team_sizes@.len() == ranks@.len() && has_empty_team(team_sizes@) ==> r == Err::<
            (),
            BBTError,
        >(BBTError::EmptyTeam),
        team_sizes@.len() == ranks@.len() && !has_empty_team(team_sizes@) ==> r is Ok,
{
    if team_sizes.len() != ranks.len() {
        return Err(BBTError::MismatchedLengths);
    }
    let mut i: usize = 0;
    while i < team_sizes.len()
        invariant
            team_sizes@.len() == ranks@.len(),
            i <= team_sizes@.len(),
            forall|j: int| 0 <= j < i ==> team_sizes@[j] != 0,
        decreases team_sizes@.len() - i,
    {
        if team_sizes[i] == 0 {
            return Err(BBTError::EmptyTeam);
        }
        i = i + 1;
    }
    Ok(())
}

/// One opponent of a team in a game, with the team's result against it.
#[derive(Clone, Copy, Debug, PartialEq, Eq, Structural)]
pub struct Pairing {
    /// The position of the opposing team in the submission.
    pub opponent: usize,
    /// How the team fared against that opponent.
    pub outcome: Outcome,
}

/// The team that stands `k`-th among the opponents of team `team`: every other
/// team, in submission order.
pub open spec fn opponent_at(team: int, k: int) -> int {
    if k < team {
        k
    } else {
        k + 1
    }
}

/// The pairings of team `team` in a game ranked by `ranks`: one for each other
/// team, in submission order, with the result that the ranks give.
pub open spec fn pairings_of(ranks: Seq<usize>, team: int) -> Seq<Pairing> {
    Seq::new(
        (ranks.len() - 1) as nat,
        |k: int|
            Pairing {
                opponent: opponent_at(team, k) as usize,
                outcome: outcome_of(ranks[team] as int, ranks[opponent_at(team, k)] as int),
            },
    )
}

/// Every team that team `team` is compared with in a game ranked by `ranks`,
/// with its result against each. Each ordered pair of distinct teams is met
/// once from each side.
pub fn opponents(ranks: &[usize], team: usize) -> (r: Vec<Pairing>)
    requires
        team < ranks@.len(),
    ensures
        r@ == pairings_of(ranks@, team as int),
{
    let mut r: Vec<Pairing> = Vec::new();
    let mut j: usize = 0;
    while j < ranks.len()
        invariant
            team < ranks@.len(),
            j <= ranks@.len(),
            r@.len() == if j <= team { j as int } else { j - 1 },
            forall|k: int|
                0 <= k < r@.len() ==> #[trigger] r@[k] == pairings_of(ranks@, team as int)[k],
        decreases ranks@.len() - j,
    {
        if j != team {
            r.push(Pairing { opponent: j, outcome: Outcome::from_ranks(ranks[team], ranks[j]) });
        }
        j = j + 1;
    }
    assert(r@ =~= pairings_of(ranks@, team as int));
    r
}

/// A team alone in its game meets no opponent.
pub proof fn lemma_lone_team_unopposed(ranks: Seq<usize>)
    requires
        ranks.len() == 1,
    ensures
        pairings_of(ranks, 0) == Seq::<Pairing>::empty(),
{
    assert(pairings_of(ranks, 0) =~= Seq::<Pairing>::empty());
}

} // verus!
