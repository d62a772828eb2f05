use crate::errors::LedgerError;
use crate::errors::PrizeError;
use crate::events::Event;
use crate::ledger::Ledger;
use crate::ledger::LedgerView;
use crate::pubkey::Pubkey;
use vstd::prelude::*;

verus! {

/// Who takes part in the cancellation of a bounty.
#[derive(Clone, Copy, Debug)]
pub struct CancelBounty {
    /// The id of the bounty.
    pub bounty_id: u64,
    /// The signer, which must be the bounty's creator.
    pub creator: Pubkey,
}

/// What a cancellation does to a ledger. The record must exist, the signer
/// must be its creator, and the bounty must still be open. Then the whole
/// escrow and the storage deposit go back to the creator, and the record is
/// destroyed. The event keeps the time of the cancellation.
pub open spec fn outcome(pre: LedgerView, ctx: CancelBounty) -> Result<LedgerView, LedgerError> {
    if !pre.bounties.dom().contains(ctx.bounty_id) {
        Err(LedgerError::Prize(PrizeError::BountyNotFound))
    } else {
        let account = pre.bounties[ctx.bounty_id];
        match account.data.refusal_while_open(ctx.creator) {
            Some(refusal) => Err(LedgerError::Prize(refusal)),
            None => Ok(
                LedgerView { bounties: pre.bounties.remove(ctx.bounty_id), ..pre }.credited(
                    ctx.creator,
                    account.funds(),
                ).emitted(
                    Event::BountyCancelled {
                        bounty_id: ctx.bounty_id,
                        reward_amount: account.escrow,
                        completed_at: pre.clock,
                    },
                ),
            ),
        }
    }
}

/// Returns the escrowed reward to the creator and destroys the record, while
/// the bounty is still unassigned. A refusal leaves the ledger as it was.
pub fn handler(ledger: &mut Ledger, ctx: CancelBounty) -> (done: Result<(), LedgerError>)
    requires
        old(ledger).wf(),
    ensures
        final(ledger).wf(),
        match outcome(old(ledger)@, ctx) {
            Ok(post) => done is Ok && final(ledger)@ == post,
            Err(refusal) => done == Err::<(), LedgerError>(refusal) && final(ledger)@ == old(
                ledger,
            )@,
        },
{
    proof {
        ledger.lemma_view_well_formed();
    }
    match ledger.bounty(ctx.bounty_id) {
        None => {
            return Err(LedgerError::Prize(PrizeError::BountyNotFound));
        },
        Some(account) => {
            match account.data.check_cancel(&ctx.creator) {
                Ok(()) => {},
                Err(refusal) => {
                    return Err(LedgerError::Prize(refusal));
                },
            }
        },
    }
    let account = ledger.take(ctx.bounty_id);
    ledger.credit(ctx.creator, account.escrow);
    ledger.credit(ctx.creator, account.reserve);
    ledger.emit(
        Event::BountyCancelled {
            bounty_id: ctx.bounty_id,
            reward_amount: account.escrow,
            completed_at: ledger.clock(),
        },
    );
    assert(ledger@.balances =~= outcome(old(ledger)@, ctx)->Ok_0.balances);
    Ok(())
}

} // verus!
