use crate::errors::LedgerError;
use crate::errors::PrizeError;
use crate::pubkey::Pubkey;
use vstd::prelude::*;
use vstd::utf8::encode_utf8;
use vstd::utf8::is_ascii_chars;
use vstd::utf8::is_ascii_chars_encode_utf8;

verus! {

/// The most bytes that an issue URL may take.
pub const MAX_GITHUB_URL_LEN: usize = 200;

/// The most bytes that a repository name may take.
pub const MAX_REPO_NAME_LEN: usize = 100;

/// The number of bytes that a text takes when stored, which is the length of
/// its UTF-8 encoding.
pub open spec fn byte_len(text: Seq<char>) -> nat {
    encode_utf8(text).len()
}

/// A text takes at least one byte and at most four for each of its
/// characters, and exactly one for each where all of them are ASCII.
pub proof fn lemma_byte_len(text: Seq<char>)
    ensures
        text.len() <= byte_len(text) <= 4 * text.len(),
        is_ascii_chars(text) ==> byte_len(text) == text.len(),
    decreases text.len(),
{
    if text.len() > 0 {
        lemma_byte_len(text.drop_first());
    }
    if is_ascii_chars(text) {
        is_ascii_chars_encode_utf8(text);
    }
}

/// Where a bounty stands in its lifecycle.
#[derive(Clone, Copy, Debug, PartialEq, Eq, Structural)]
pub enum BountyStatus {
    /// Funded and not yet assigned.
    Open,
    /// Assigned to a contributor.
    InProgress,
    /// Paid out.
    Completed,
    /// Refunded to its creator.
    Cancelled,
}

impl BountyStatus {
    /// A record with a terminal status has left the lifecycle.
    pub open spec fn terminal(self) -> bool {
        self == BountyStatus::Completed || self == BountyStatus::Cancelled
    }
}

/// The registry: one per deployment, created once and never destroyed.
#[derive(Clone, Copy, Debug, PartialEq, Eq)]
pub struct ProgramConfig {
    /// The party that initialized the system.
    pub authority: Pubkey,
    /// The number of bounties created so far.
    pub bounty_count: u64,
    /// The bump seed of the registry's address.
    pub bump: u8,
}

impl ProgramConfig {
    /// The bytes that a stored registry takes: an 8-byte tag, the authority,
    /// the counter and the bump seed.
    pub const LEN: usize = 8 + 32 + 8 + 1;

    /// A fresh registry, with no bounty counted.
    pub fn new(authority: Pubkey, bump: u8) -> (config: ProgramConfig)
        ensures
            config == (ProgramConfig { authority, bounty_count: 0, bump }),
    {
        ProgramConfig { authority, bounty_count: 0, bump }
    }

    /// The registry after one more creation. The counter never wraps: at its
    /// maximum the creation is refused.
    pub open spec fn counted(self) -> Result<ProgramConfig, LedgerError> {
        if self.bounty_count < u64::MAX {
            Ok(ProgramConfig { bounty_count: (self.bounty_count + 1) as u64, ..self })
        } else {
            Err(LedgerError::CounterOverflow)
        }
    }

    /// Counts one creation, or refuses and leaves the registry as it was.
    pub fn count_bounty(&mut self) -> (counted: Result<(), LedgerError>)
        ensures
            match old(self).counted() {
                Ok(next) => counted is Ok && *final(self) == next,
                Err(refusal) => counted == Err::<(), LedgerError>(refusal) && *final(self) == *old(
                    self,
                ),
            },
    {
        match self.bounty_count.checked_add(1) {
            Some(next) => {
                self.bounty_count = next;
                Ok(())
            },
            None => Err(LedgerError::CounterOverflow),
        }
    }
}

/// The record of one bounty.
#[derive(Debug, PartialEq, Eq)]
pub struct Bounty {
    /// The id that the creator chose, under which the record is found.
    pub id: u64,
    /// The party that created the bounty and alone may assign, complete or
    /// cancel it.
    pub creator: Pubkey,
    /// The reward in lamports, fixed at creation.
    pub reward_amount: u64,
    pub status: BountyStatus,
    /// The contributor, once one is assigned.
    pub assignee: Option<Pubkey>,
    pub github_issue_url: String,
    pub repo_name: String,
    pub issue_number: u64,
    /// The time of creation.
    pub created_at: i64,
    /// The time at which the record reached a terminal status.
    pub completed_at: Option<i64>,
    /// The bump seed of the record's address.
    pub bump: u8,
}

impl Clone for Bounty {
    fn clone(&self) -> (copy: Self)
        ensures
            copy == *self,
    {
        Bounty {
            id: self.id,
            creator: self.creator,
            reward_amount: self.reward_amount,
            status: self.status,
            assignee: self.assignee,
            github_issue_url: self.github_issue_url.clone(),
            repo_name: self.repo_name.clone(),
            issue_number: self.issue_number,
            created_at: self.created_at,
            completed_at: self.completed_at,
            bump: self.bump,
        }
    }
}

impl Bounty {
    /// The storage set aside for a record: an 8-byte tag, then room for each
    /// field at its largest.
    pub const MAX_LEN: usize = 8 + 8 + 32 + 8 + 2 + 33 + 204 + 104 + 8 + 8 + 9 + 1;

    /// What holds of every live record: the reward is positive, the texts
    /// keep their bounds, an assignee is recorded exactly when the bounty is
    /// in progress, and no terminal status or completion time is stored.
    pub open spec fn well_formed(&self) -> bool {
        &&& self.reward_amount > 0
        &&& byte_len(self.github_issue_url@) <= MAX_GITHUB_URL_LEN
        &&& byte_len(self.repo_name@) <= MAX_REPO_NAME_LEN
        &&& !self.status.terminal()
        &&& self.assignee is Some <==> self.status == BountyStatus::InProgress
        &&& self.completed_at is None
    }

    /// The bytes that the record takes when stored: an 8-byte tag, the
    /// integers at their width, one byte for the status, each text behind a
    /// 4-byte length, and one byte before each optional field that says
    /// whether it is present.
    pub open spec fn stored_len(&self) -> nat {
        8 + 8 + 32 + 8 + 1 + (if self.assignee is Some {
            33nat
        } else {
            1nat
        }) + 4 + byte_len(self.github_issue_url@) + 4 + byte_len(self.repo_name@) + 8 + 8 + (
        if self.completed_at is Some {
            9nat
        } else {
            1nat
        }) + 1
    }

    /// A record whose texts keep their bounds fits the storage set aside
    /// for it.
    pub proof fn lemma_fits_storage(&self)
        requires
            byte_len(self.github_issue_url@) <= MAX_GITHUB_URL_LEN,
            byte_len(self.repo_name@) <= MAX_REPO_NAME_LEN,
        ensures
            self.stored_len() <= Bounty::MAX_LEN,
    {
    }

    /// Why the inputs of a creation are refused, if they are. The amount is
    /// looked at first, then the URL, then the repository name.
    pub open spec fn invalid_input(reward_amount: u64, url: Seq<char>, repo: Seq<char>) -> Option<
        PrizeError,
    > {
        if reward_amount == 0 {
            Some(PrizeError::InvalidAmount)
        } else if byte_len(url) > MAX_GITHUB_URL_LEN {
            Some(PrizeError::GithubUrlTooLong)
        } else if byte_len(repo) > MAX_REPO_NAME_LEN {
            Some(PrizeError::RepoNameTooLong)
        } else {
            None
        }
    }

    /// Checks the inputs of a creation.
    pub fn validate(reward_amount: u64, github_issue_url: &String, repo_name: &String) -> (checked:
        Result<(), PrizeError>)
        ensures
            checked == match Bounty::invalid_input(reward_amount, github_issue_url@, repo_name@) {
                Some(refusal) => Err::<(), PrizeError>(refusal),
                None => Ok(()),
            },
    {
        if reward_amount == 0 {
            return Err(PrizeError::InvalidAmount);
        }
        if github_issue_url.as_str().as_bytes().len() > MAX_GITHUB_URL_LEN {
            return Err(PrizeError::GithubUrlTooLong);
        }
        if repo_name.as_str().as_bytes().len() > MAX_REPO_NAME_LEN {
            return Err(PrizeError::RepoNameTooLong);
        }
        Ok(())
    }

    /// The record of a bounty that was just created: open, with no assignee
    /// and no completion time.
    pub open spec fn opened(
        id: u64,
        creator: Pubkey,
        reward_amount: u64,
        github_issue_url: String,
        repo_name: String,
        issue_number: u64,
        created_at: i64,
        bump: u8,
    ) -> Bounty {
        Bounty {
            id,
            creator,
            reward_amount,
            status: BountyStatus::Open,
            assignee: None,
            github_issue_url,
            repo_name,
            issue_number,
            created_at,
            completed_at: None,
            bump,
        }
    }

    /// Makes the record of a new bounty, or says why the inputs are refused.
    pub fn new(
        id: u64,
        creator: Pubkey,
        reward_amount: u64,
        github_issue_url: String,
        repo_name: String,
        issue_number: u64,
        created_at: i64,
        bump: u8,
    ) -> (made: Result<Bounty, PrizeError>)
        ensures
            made == match Bounty::invalid_input(reward_amount, github_issue_url@, repo_name@) {
                Some(refusal) => Err::<Bounty, PrizeError>(refusal),
                None => Ok(
                    Bounty::opened(
                        id,
                        creator,
                        reward_amount,
                        github_issue_url,
                        repo_name,
                        issue_number,
                        created_at,
                        bump,
                    ),
                ),
            },
            made matches Ok(bounty) ==> bounty.well_formed(),
    {
        match Bounty::validate(reward_amount, &github_issue_url, &repo_name) {
            Err(refusal) => Err(refusal),
            Ok(()) => Ok(
                Bounty {
                    id,
                    creator,
                    reward_amount,
                    status: BountyStatus::Open,
                    assignee: None,
                    github_issue_url,
                    repo_name,
                    issue_number,
                    created_at,
                    completed_at: None,
                    bump,
                },
            ),
        }
    }

    /// Why the signer may not assign or cancel the bounty, if so: only the
    /// creator may, and only while the bounty is open. Who signs is looked
    /// at first.
    pub open spec fn refusal_while_open(&self, signer: Pubkey) -> Option<PrizeError> {
        if self.creator != signer {
            Some(PrizeError::UnauthorizedAccess)
        } else if self.status != BountyStatus::Open {
            Some(PrizeError::InvalidBountyStatus)
        } else {
            None
        }
    }

    /// Why the signer may not complete the bounty, if so: only the creator
    /// may, and only while the bounty is open or in progress. Who signs is
    /// looked at first.
    pub open spec fn refusal_to_complete(&self, signer: Pubkey) -> Option<PrizeError> {
        if self.creator != signer {
            Some(PrizeError::UnauthorizedAccess)
        } else if self.status != BountyStatus::Open && self.status != BountyStatus::InProgress {
            Some(PrizeError::InvalidBountyStatus)
        } else {
            None
        }
    }

    /// The record after its assignment.
    pub open spec fn assigned(self, assignee: Pubkey) -> Bounty {
        Bounty { assignee: Some(assignee), status: BountyStatus::InProgress, ..self }
    }

    /// Says whether the signer may assign the bounty now.
    pub fn check_assign(&self, signer: &Pubkey) -> (checked: Result<(), PrizeError>)
        ensures
            checked == match self.refusal_while_open(*signer) {
                Some(refusal) => Err::<(), PrizeError>(refusal),
                None => Ok(()),
            },
    {
        if self.creator != *signer {
            return Err(PrizeError::UnauthorizedAccess);
        }
        match self.status {
            BountyStatus::Open => Ok(()),
            _ => Err(PrizeError::InvalidBountyStatus),
        }
    }

    /// Says whether the signer may cancel the bounty now.
    pub fn check_cancel(&self, signer: &Pubkey) -> (checked: Result<(), PrizeError>)
        ensures
            checked == match self.refusal_while_open(*signer) {
                Some(refusal) => Err::<(), PrizeError>(refusal),
                None => Ok(()),
            },
    {
        self.check_assign(signer)
    }

    /// Says whether the signer may complete the bounty now.
    pub fn check_complete(&self, signer: &Pubkey) -> (checked: Result<(), PrizeError>)
        ensures
            checked == match self.refusal_to_complete(*signer) {
                Some(refusal) => Err::<(), PrizeError>(refusal),
                None => Ok(()),
            },
    {
        if self.creator != *signer {
            return Err(PrizeError::UnauthorizedAccess);
        }
        match self.status {
            BountyStatus::Open | BountyStatus::InProgress => Ok(()),
            _ => Err(PrizeError::InvalidBountyStatus),
        }
    }

    /// Records the contributor and moves the bounty from open to in
    /// progress, or refuses and leaves the record as it was.
    pub fn assign(&mut self, signer: &Pubkey, assignee: Pubkey) -> (done: Result<(), PrizeError>)
        ensures
            match old(self).refusal_while_open(*signer) {
                Some(refusal) => done == Err::<(), PrizeError>(refusal) && *final(self) == *old(
                    self,
                ),
                None => done is Ok && *final(self) == old(self).assigned(assignee),
            },
            old(self).well_formed() ==> final(self).well_formed(),
    {
        match self.check_assign(signer) {
            Err(refusal) => Err(refusal),
            Ok(()) => {
                self.assignee = Some(assignee);
                self.status = BountyStatus::InProgress;
                Ok(())
            },
        }
    }
}

/// A bounty record together with the funds that are held under it.
#[derive(Debug, PartialEq, Eq)]
pub struct BountyAccount {
    pub data: Bounty,
    /// The reward, held until the bounty is completed or cancelled.
    pub escrow: u64,
    /// The deposit that was paid for the record's storage.
    pub reserve: u64,
}

impl BountyAccount {
    /// All the funds held under the record.
    pub open spec fn funds(&self) -> nat {
        (self.escrow + self.reserve) as nat
    }

    /// What holds of every account of a live record: the record is well
    /// formed, the escrow is exactly the reward, and the funds fit the
    /// balance of one account.
    pub open spec fn well_formed(&self) -> bool {
        &&& self.data.well_formed()
        &&& self.escrow == self.data.reward_amount
        &&& self.funds() <= u64::MAX
    }

    /// The account of a record that was just created: the reward in escrow
    /// beside the storage deposit.
    pub fn open(data: Bounty, deposit: u64) -> (account: BountyAccount)
        ensures
            account == (BountyAccount { data, escrow: data.reward_amount, reserve: deposit }),
    {
        let escrow = data.reward_amount;
        BountyAccount { data, escrow, reserve: deposit }
    }
}

} // verus!
