use crate::errors::LedgerError;
use crate::errors::PrizeError;
use crate::events::Event;
use crate::ledger::Ledger;
use crate::ledger::LedgerView;
use crate::pubkey::Pubkey;
use crate::state::BountyAccount;
use vstd::prelude::*;

verus! {

/// Who takes part in the assignment of a bounty.
#[derive(Clone, Copy, Debug)]
pub struct AssignBounty {
    /// The id of the bounty.
    pub bounty_id: u64,
    /// The signer, which must be the bounty's creator.
    pub creator: Pubkey,
    /// The contributor. It need not sign.
    pub assignee: Pubkey,
}

/// What an assignment does to a ledger. The record must exist, the signer
/// must be its creator, and the bounty must be open. Then the assignee is
/// recorded and the bounty is in progress. No funds move.
pub open spec fn outcome(pre: LedgerView, ctx: AssignBounty) -> Result<LedgerView, LedgerError> {
    if !pre.bounties.dom().contains(ctx.bounty_id) {
        Err(LedgerError::Prize(PrizeError::BountyNotFound))
    } else {
        let account = pre.bounties[ctx.bounty_id];
        match account.data.refusal_while_open(ctx.creator) {
            Some(refusal) => Err(LedgerError::Prize(refusal)),
            None => Ok(
                LedgerView {
                    bounties: pre.bounties.insert(
                        ctx.bounty_id,
                        BountyAccount { data: account.data.assigned(ctx.assignee), ..account },
                    ),
                    ..pre
                }.emitted(
                    Event::BountyAssigned { bounty_id: ctx.bounty_id, assignee: ctx.assignee },
                ),
            ),
        }
    }
}

/// Records which contributor is expected to deliver the work. A refusal
/// leaves the ledger as it was.
pub fn handler(ledger: &mut Ledger, ctx: AssignBounty) -> (done: Result<(), LedgerError>)
    requires
        old(ledger).wf(),
    ensures
        final(ledger).wf(),
        match outcome(old(ledger)@, ctx) {
            Ok(post) => done is Ok && final(ledger)@ == post,
            Err(refusal) => done == Err::<(), LedgerError>(refusal) && final(ledger)@ == old(
                ledger,
            )@,
        },
{
    proof {
        ledger.lemma_view_well_formed();
    }
    if ledger.bounty(ctx.bounty_id).is_none() {
        return Err(LedgerError::Prize(PrizeError::BountyNotFound));
    }
    let mut account = ledger.take(ctx.bounty_id);
    let assigned = account.data.assign(&ctx.creator, ctx.assignee);
    ledger.put(account);
    match assigned {
        Ok(()) => {
            ledger.emit(Event::BountyAssigned { bounty_id: ctx.bounty_id, assignee: ctx.assignee });
            assert(ledger@.bounties =~= outcome(old(ledger)@, ctx)->Ok_0.bounties);
            Ok(())
        },
        Err(refusal) => {
            assert(ledger@.bounties =~= old(ledger)@.bounties);
            Err(LedgerError::Prize(refusal))
        },
    }
}

} // verus!
