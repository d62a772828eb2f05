use crate::address::bounty_seeds;
use crate::address::find_bounty_address;
use crate::address::program_derived_address;
use crate::errors::LedgerError;
use crate::events::Event;
use crate::ledger::Ledger;
use crate::ledger::LedgerView;
use crate::pubkey::Pubkey;
use crate::state::Bounty;
use crate::state::BountyAccount;
use vstd::prelude::*;

verus! {

/// Who takes part in the creation of a bounty.
#[derive(Clone, Copy, Debug)]
pub struct CreateBounty {
    /// The signer, which pays the reward and the storage deposit and becomes
    /// the bounty's creator.
    pub creator: Pubkey,
    /// The bump seed of the new record's address.
    pub bump: u8,
}

impl CreateBounty {
    /// The participants of a creation, given the address that was derived
    /// for the record.
    pub open spec fn resolved(creator: Pubkey, derived: Option<(Seq<u8>, u8)>) -> Option<
        CreateBounty,
    > {
        match derived {
            Some((_, bump)) => Some(CreateBounty { creator, bump }),
            None => None,
        }
    }

    /// The participants of the creation of a bounty under a program: the
    /// bump seed is that of the derived address of the bounty's record.
    /// There are none where no address can be derived.
    pub fn resolve(program_id: &Pubkey, creator: Pubkey, bounty_id: u64) -> (ctx: Option<
        CreateBounty,
    >)
        ensures
            ctx == CreateBounty::resolved(
                creator,
                program_derived_address(bounty_seeds(bounty_id), program_id@),
            ),
    {
        match find_bounty_address(program_id, bounty_id) {
            Some((_, bump)) => Some(CreateBounty { creator, bump }),
            None => None,
        }
    }
}

/// The account that a creation stores: an open record, stamped with the
/// ledger's time, with the reward in escrow beside the storage deposit.
pub open spec fn created(
    pre: LedgerView,
    ctx: CreateBounty,
    bounty_id: u64,
    reward_amount: u64,
    github_issue_url: String,
    repo_name: String,
    issue_number: u64,
) -> BountyAccount {
    BountyAccount {
        data: Bounty::opened(
            bounty_id,
            ctx.creator,
            reward_amount,
            github_issue_url,
            repo_name,
            issue_number,
            pre.clock,
            ctx.bump,
        ),
        escrow: reward_amount,
        reserve: pre.deposit,
    }
}

/// What a creation does to a ledger. The inputs are checked first, in the
/// order amount, URL, repository name; then the registry must exist, the id
/// must be free, the creator must hold the reward and the deposit, and the
/// counter must have room. Then the creator pays, the record is stored,
/// the counter goes up by one, and the event tells the id, the amount and
/// the issue URL.
pub open spec fn outcome(
    pre: LedgerView,
    ctx: CreateBounty,
    bounty_id: u64,
    reward_amount: u64,
    github_issue_url: String,
    repo_name: String,
    issue_number: u64,
) -> Result<LedgerView, LedgerError> {
    match Bounty::invalid_input(reward_amount, github_issue_url@, repo_name@) {
        Some(refusal) => Err(LedgerError::Prize(refusal)),
        None => match pre.config {
            None => Err(LedgerError::NotInitialized),
            Some(config) => if pre.bounties.dom().contains(bounty_id) {
                Err(LedgerError::BountyExists)
            } else if pre.balances[ctx.creator] < reward_amount + pre.deposit {
                Err(LedgerError::InsufficientFunds)
            } else {
                match config.counted() {
                    Err(refusal) => Err(refusal),
                    Ok(counted) => Ok(
                        LedgerView {
                            config: Some(counted),
                            bounties: pre.bounties.insert(
                                bounty_id,
                                created(
                                    pre,
                                    ctx,
                                    bounty_id,
                                    reward_amount,
                                    github_issue_url,
                                    repo_name,
                                    issue_number,
                                ),
                            ),
                            ..pre.debited(ctx.creator, (reward_amount + pre.deposit) as nat)
                        }.emitted(
                            Event::BountyCreated { bounty_id, reward_amount, github_issue_url },
                        ),
                    ),
                }
            },
        },
    }
}

/// Locks the reward of a new bounty: moves the reward and the storage
/// deposit from the creator's balance to a new open record and counts the
/// creation in the registry. A refusal leaves the ledger as it was.
pub fn handler(
    ledger: &mut Ledger,
    ctx: CreateBounty,
    bounty_id: u64,
    reward_amount: u64,
    github_issue_url: String,
    repo_name: String,
    issue_number: u64,
) -> (done: Result<(), LedgerError>)
    requires
        old(ledger).wf(),
    ensures
        final(ledger).wf(),
        match outcome(
            old(ledger)@,
            ctx,
            bounty_id,
            reward_amount,
            github_issue_url,
            repo_name,
            issue_number,
        ) {
            Ok(post) => done is Ok && final(ledger)@ == post,
            Err(refusal) => done == Err::<(), LedgerError>(refusal) && final(ledger)@ == old(
                ledger,
            )@,
        },
{
    proof {
        ledger.lemma_view_well_formed();
    }
    let issue = github_issue_url.clone();
    let data = match Bounty::new(
        bounty_id,
        ctx.creator,
        reward_amount,
        github_issue_url,
        repo_name,
        issue_number,
        ledger.clock(),
        ctx.bump,
    ) {
        Ok(data) => data,
        Err(refusal) => {
            return Err(LedgerError::Prize(refusal));
        },
    };
    let mut config = match ledger.config() {
        Some(config) => config,
        None => {
            return Err(LedgerError::NotInitialized);
        },
    };
    if ledger.bounty(bounty_id).is_some() {
        return Err(LedgerError::BountyExists);
    }
    let deposit = ledger.deposit();
    let balance = ledger.balance(&ctx.creator);
    if balance < reward_amount || balance - reward_amount < deposit {
        return Err(LedgerError::InsufficientFunds);
    }
    match config.count_bounty() {
        Ok(()) => {},
        Err(refusal) => {
            return Err(refusal);
        },
    }
    ledger.debit(&ctx.creator, reward_amount + deposit);
    ledger.put(BountyAccount::open(data, deposit));
    ledger.set_config(config);
    ledger.emit(Event::BountyCreated { bounty_id, reward_amount, github_issue_url: issue });
    Ok(())
}

} // verus!
