use vstd::prelude::*;

verus! {

/// The program's own error codes.
#[derive(Clone, Copy, Debug, PartialEq, Eq, Structural)]
pub enum PrizeError {
    /// The caller is not the creator of the bounty.
    UnauthorizedAccess,
    /// The transition asked for is not legal from the bounty's status.
    InvalidBountyStatus,
    /// The reward amount is zero.
    InvalidAmount,
    /// No live bounty has the id that was named.
    BountyNotFound,
    /// The issue URL takes more than 200 bytes.
    GithubUrlTooLong,
    /// The repository name takes more than 100 bytes.
    RepoNameTooLong,
    /// The assignee is not acceptable. No guard raises it at present.
    InvalidAssignee,
}

impl PrizeError {
    /// The text shown to a caller for each error.
    pub open spec fn text(self) -> Seq<char> {
        match self {
            PrizeError::UnauthorizedAccess =>
                "Unauthorized: You do not have permission to perform this action"@,
            PrizeError::InvalidBountyStatus => "Invalid bounty status for this operation"@,
            PrizeError::InvalidAmount => "Invalid amount: Amount must be greater than 0"@,
            PrizeError::BountyNotFound => "Bounty not found"@,
            PrizeError::GithubUrlTooLong => "GitHub URL is too long (max 200 characters)"@,
            PrizeError::RepoNameTooLong => "Repository name is too long (max 100 characters)"@,
            PrizeError::InvalidAssignee => "Invalid assignee"@,
        }
    }

    /// The human-readable message of the error.
    pub fn message(&self) -> (message: &'static str)
        ensures
            message@ == self.text(),
    {
        match self {
            PrizeError::UnauthorizedAccess =>
                "Unauthorized: You do not have permission to perform this action",
            PrizeError::InvalidBountyStatus => "Invalid bounty status for this operation",
            PrizeError::InvalidAmount => "Invalid amount: Amount must be greater than 0",
            PrizeError::BountyNotFound => "Bounty not found",
            PrizeError::GithubUrlTooLong => "GitHub URL is too long (max 200 characters)",
            PrizeError::RepoNameTooLong => "Repository name is too long (max 100 characters)",
            PrizeError::InvalidAssignee => "Invalid assignee",
        }
    }
}

/// Why an operation on the ledger was refused: either one of the program's
/// own errors, or a refusal of the storage and transfer layer beneath it.
#[derive(Clone, Copy, Debug, PartialEq, Eq, Structural)]
pub enum LedgerError {
    /// A guard of the bounty lifecycle refused the operation.
    Prize(PrizeError),
    /// The registry exists already.
    AlreadyInitialized,
    /// The registry does not exist yet.
    NotInitialized,
    /// A live bounty already has the id that was chosen.
    BountyExists,
    /// The payer's balance does not cover the reward and the storage deposit.
    InsufficientFunds,
    /// The registry's counter stands at its maximum.
    CounterOverflow,
}

} // verus!
