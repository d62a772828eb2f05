use crate::errors::LedgerError;
use crate::errors::PrizeError;
use crate::events::Event;
use crate::ledger::Ledger;
use crate::ledger::LedgerView;
use crate::pubkey::Pubkey;
use vstd::prelude::*;

verus! {

/// Who takes part in the completion of a bounty.
#[derive(Clone, Copy, Debug)]
pub struct CompleteBounty {
    /// The id of the bounty.
    pub bounty_id: u64,
    /// The signer, which must be the bounty's creator.
    pub creator: Pubkey,
    /// The party that receives the reward. It need not be the assignee.
    pub recipient: Pubkey,
}

/// What a completion does to a ledger. The record must exist, the signer
/// must be its creator, and the bounty must be open or in progress. Then the
/// whole escrow goes to the recipient, the storage deposit goes back to the
/// creator, and the record is destroyed. The event keeps the time of the
/// completion.
pub open spec fn outcome(pre: LedgerView, ctx: CompleteBounty) -> Result<LedgerView, LedgerError> {
    if !pre.bounties.dom().contains(ctx.bounty_id) {
        Err(LedgerError::Prize(PrizeError::BountyNotFound))
    } else {
        let account = pre.bounties[ctx.bounty_id];
        match account.data.refusal_to_complete(ctx.creator) {
            Some(refusal) => Err(LedgerError::Prize(refusal)),
            None => Ok(
                LedgerView { bounties: pre.bounties.remove(ctx.bounty_id), ..pre }.credited(
                    ctx.recipient,
                    account.escrow as nat,
                ).credited(ctx.creator, account.reserve as nat).emitted(
                    Event::BountyCompleted {
                        bounty_id: ctx.bounty_id,
                        reward_amount: account.escrow,
                        recipient: ctx.recipient,
                        completed_at: pre.clock,
                    },
                ),
            ),
        }
    }
}

/// Releases the escrowed reward to the recipient and destroys the record.
/// A refusal leaves the ledger as it was.
pub fn handler(ledger: &mut Ledger, ctx: CompleteBounty) -> (done: Result<(), LedgerError>)
    requires
        old(ledger).wf(),
    ensures
        final(ledger).wf(),
        match outcome(old(ledger)@, ctx) {
            Ok(post) => done is Ok && final(ledger)@ == post,
            Err(refusal) => done == Err::<(), LedgerError>(refusal) && final(ledger)@ == old(
                ledger,
            )@,
        },
{
    proof {
        ledger.lemma_view_well_formed();
    }
    match ledger.bounty(ctx.bounty_id) {
        None => {
            return Err(LedgerError::Prize(PrizeError::BountyNotFound));
        },
        Some(account) => {
            match account.data.check_complete(&ctx.creator) {
                Ok(()) => {},
                Err(refusal) => {
                    return Err(LedgerError::Prize(refusal));
                },
            }
        },
    }
    let account = ledger.take(ctx.bounty_id);
    ledger.credit(ctx.recipient, account.escrow);
    ledger.credit(ctx.creator, account.reserve);
    ledger.emit(
        Event::BountyCompleted {
            bounty_id: ctx.bounty_id,
            reward_amount: account.escrow,
            recipient: ctx.recipient,
            completed_at: ledger.clock(),
        },
    );
    Ok(())
}

} // verus!
