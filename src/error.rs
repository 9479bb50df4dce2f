use vstd::prelude::*;

verus! {

/// Why a game submission is refused.
#[derive(Debug, Clone, Copy, PartialEq, Eq, Structural)]
pub enum BBTError {
    /// The teams and ranks have different lengths.
    MismatchedLengths,
    /// One or more teams contain no players.
    EmptyTeam,
}

impl BBTError {
    /// The human-readable description of the error.
    pub open spec fn message(self) -> Seq<char> {
        match self {
            BBTError::MismatchedLengths => "`teams` and `ranks` must be of the same length"@,
            BBTError::EmptyTeam => "At least one of the teams contains no players"@,
        }
    }

    /// Renders the error as text.
    pub fn to_string(&self) -> (r: String)
        ensures
            r@ == self.message(),
    {
        match self {
            BBTError::MismatchedLengths => String::from_str(
                "`teams` and `ranks` must be of the same length",
            ),
            BBTError::EmptyTeam => String::from_str("At least one of the teams contains no players"),
        }
    }
}

} // verus!
