//! Rank-update decisions for a Bayesian approximation of the Bradley-Terry
//! model ("Weng-Lin" online ranking).
//!
//! A game is submitted as a list of teams, each a list of player ratings, and
//! a rank per team: a lower rank number places better and equal numbers tie.
//! This crate holds, with proofs, everything in an update that is decided on
//! integers: whether a submission is accepted, which teams each team is
//! compared with and what its result against each of them is, and the ranks
//! that a head-to-head duel submits.

mod error;
mod game;
mod outcome;

pub use error::BBTError;
pub use game::{
    check_submission, has_empty_team, lemma_lone_team_unopposed, opponent_at, opponents,
    pairings_of, Pairing,
};
pub use outcome::{
    lemma_duel_ranks_reproduce_outcome, lemma_pairing_shares_one_point, outcome_of, Outcome,
};
