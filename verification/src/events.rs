use crate::pubkey::Pubkey;
use vstd::prelude::*;

verus! {

/// What an operation that succeeded leaves behind for observers. No
/// operation reads the events of another.
#[derive(Debug, PartialEq, Eq)]
pub enum Event {
    /// The registry was created.
    Initialized { authority: Pubkey },
    /// A bounty was created and its reward put in escrow.
    BountyCreated { bounty_id: u64, reward_amount: u64, github_issue_url: String },
    /// A bounty was assigned to a contributor.
    BountyAssigned { bounty_id: u64, assignee: Pubkey },
    /// A bounty was completed and its reward paid out. The record is gone:
    /// the time of its completion is kept here.
    BountyCompleted { bounty_id: u64, reward_amount: u64, recipient: Pubkey, completed_at: i64 },
    /// A bounty was cancelled and its reward refunded to its creator. The
    /// record is gone: the time of its cancellation is kept here.
    BountyCancelled { bounty_id: u64, reward_amount: u64, completed_at: i64 },
}

} // verus!
