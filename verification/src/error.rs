//! The error kinds of the governance ledger. Every operation either commits
//! all of its writes or returns one of these and leaves the state unchanged.

use vstd::prelude::*;

verus! {

/// Why a governance operation was rejected.
#[derive(Clone, Copy, Debug, PartialEq, Eq, Structural)]
pub enum DaoError {
    /// A referenced DAO, proposal, option or badge identifier does not exist.
    NotFound,
    /// An entity was created under an identifier that already exists.
    DuplicateId,
    /// The presented credential is missing or scoped to another DAO.
    NotAuthorized,
    /// A voting window does not satisfy `current < start <= end`.
    InvalidWindow,
    /// An option was appended at or after the voting start epoch.
    OptionsFrozen,
    /// An option's identifier, label or rank collides with an existing one.
    DuplicateOption,
    /// A vote was cast outside the `[start, end]` epoch window.
    VotingNotOpen,
    /// A vote targets an option the proposal does not have.
    UnknownOption,
    /// A vote identifier was already used on this proposal.
    DuplicateVoteId,
    /// The ownership proof is not of the proposal's governance token.
    WrongGovernanceToken,
    /// The ownership proof resolves to no token instances at all.
    NoTokensProvided,
    /// Every presented token instance was already consumed earlier.
    AllTokensAlreadyVoted,
}

impl DaoError {
    /// A short human-readable name for the error.
    pub fn as_str(&self) -> (r: &'static str)
        ensures
            r@.len() > 0,
    {
        proof {
            reveal_strlit("NotFound");
            reveal_strlit("DuplicateId");
            reveal_strlit("NotAuthorized");
            reveal_strlit("InvalidWindow");
            reveal_strlit("OptionsFrozen");
            reveal_strlit("DuplicateOption");
            reveal_strlit("VotingNotOpen");
            reveal_strlit("UnknownOption");
            reveal_strlit("DuplicateVoteId");
            reveal_strlit("WrongGovernanceToken");
            reveal_strlit("NoTokensProvided");
            reveal_strlit("AllTokensAlreadyVoted");
        }
        match self {
            DaoError::NotFound => "NotFound",
            DaoError::DuplicateId => "DuplicateId",
            DaoError::NotAuthorized => "NotAuthorized",
            DaoError::InvalidWindow => "InvalidWindow",
            DaoError::OptionsFrozen => "OptionsFrozen",
            DaoError::DuplicateOption => "DuplicateOption",
            DaoError::VotingNotOpen => "VotingNotOpen",
            DaoError::UnknownOption => "UnknownOption",
            DaoError::DuplicateVoteId => "DuplicateVoteId",
            DaoError::WrongGovernanceToken => "WrongGovernanceToken",
            DaoError::NoTokensProvided => "NoTokensProvided",
            DaoError::AllTokensAlreadyVoted => "AllTokensAlreadyVoted",
        }
    }
}

} // verus!
